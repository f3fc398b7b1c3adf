//! Station-side message layer of the CHAdeMO DC fast-charging protocol
//! (IEEE 2030.1.1): a bit-exact codec for the fixed-format bus messages, a
//! session aggregate holding the latest decoded value of each message, and
//! the safety derivations (fault aggregation, contactor-closure permission)
//! layered on top.

pub mod error;
pub mod frames;
pub mod interface;

use vstd::prelude::*;

use crate::error::ChademoError;

verus! {

/// True iff bit `position` of `byte` is set.
pub open spec fn bit_set(byte: u8, position: u8) -> bool {
    byte & (1u8 << position) != 0
}

/// Reads a single bit of a status or fault byte.
pub fn get_bit(byte: u8, position: u8) -> (r: bool)
    requires
        position < 8,
    ensures
        r == bit_set(byte, position),
{
    (byte & (1u8 << position)) != 0
}

} // verus!

use crate::frames::X100;
use crate::frames::X101;
use crate::frames::X102;
use crate::frames::X102Status;
use crate::frames::X108;
use crate::frames::X109;
use crate::frames::X109Status;
use crate::frames::X200;
use crate::frames::X208;
use crate::frames::X209;
use crate::frames::x100_default;
use crate::frames::x100_of_bytes;
use crate::frames::x101_default;
use crate::frames::x101_of_bytes;
use crate::frames::x102_default;
use crate::frames::x102_of_bytes;
use crate::frames::x102_any_fault;
use crate::frames::x102_can_close_contactors;
use crate::frames::x108_frame;
use crate::frames::x109_frame;
use crate::frames::x109_new_spec;
use crate::frames::x200_default;
use crate::frames::x200_of_bytes;
use crate::frames::x208_frame;
use crate::frames::x209_frame;
use crate::interface::ChademoCanFrame;
use crate::interface::standard_id_to_raw;

verus! {

/// A value clamped into the range of a wire byte.
pub open spec fn sat_u8(v: int) -> u8 {
    if v > 255 {
        255u8
    } else if v < 0 {
        0u8
    } else {
        v as u8
    }
}

/// The session aggregate: one instance per physical connection, holding the
/// most recently decoded value of each vehicle-reported message and the
/// current commanded value of each station-reported message.
///
/// Vehicle-reported fields (`x100`, `x101`, `x102`, `x200`) are mutated only
/// by decoding a matching frame; station-reported fields (`x108`, `x109`,
/// `x208`, `x209`) are mutated only by explicit control calls.
#[derive(Debug, Clone, PartialEq, Eq, Structural)]
pub struct Chademo {
    /// Latest decoded charge-current floor and battery voltage window.
    pub x100: X100,
    /// Latest decoded charge-time window and rated capacity.
    pub x101: X101,
    /// Latest decoded vehicle status: target voltage, requested current,
    /// fault and status flags, state of charge.
    pub x102: X102,
    /// Commanded output capability of the station.
    pub x108: X108,
    /// Commanded station status and present output.
    pub x109: X109,
    /// Latest decoded vehicle discharge limits.
    pub x200: X200,
    /// Commanded discharge capability of the station.
    pub x208: X208,
    /// Commanded discharge sequence number and remaining time.
    pub x209: X209,
}

impl Chademo {
    /// Constructs the aggregate in its documented safe default: vehicle
    /// records zeroed, stop-control asserted, zero output, the station's
    /// maximum output current `max_amps` seeded into the output-capability
    /// and discharge-capability records.
    pub fn new(max_amps: u8) -> (r: Chademo)
        ensures
            r.x100 == x100_default(),
            r.x101 == x101_default(),
            r.x102 == x102_default(),
            r.x200 == x200_default(),
            r.x109 == x109_new_spec(2, true),
            r.x108 == (X108 {
                available_output_current: max_amps,
                avaible_output_voltage: 500,
                welding_detection: 1,
                threshold_voltage: 435,
            }),
            r.x208 == (X208 {
                discharge_current: 0,
                input_voltage: 500,
                input_current: max_amps,
                lower_threshold_voltage: 250,
            }),
            r.x209 == (X209 { sequence: 2, remaing_discharge_time: 0 }),
    {
        Chademo {
            x100: X100::default(),
            x101: X101::default(),
            x102: X102::default(),
            x200: X200::default(),
            x109: X109::new(2, true),
            x108: X108::new(max_amps, 500, true, 435),
            x208: X208::new(0, 500, max_amps, 250),
            x209: X209::new(2, 0),
        }
    }

    /// Routes one received frame to the codec of its identifier and updates
    /// exactly the corresponding field. A frame from the extended identifier
    /// space, an unrecognized identifier or a malformed payload is rejected,
    /// and on any error no field of the aggregate is mutated.
    pub fn decode(&mut self, frame: ChademoCanFrame) -> (r: Result<(), ChademoError>)
        ensures
            r is Err ==> *final(self) == *old(self),
            frame@.extended ==> r == Err::<(), ChademoError>(ChademoError::DecodeBadIdExt),
            r is Ok <==> (!frame@.extended && frame@.data.len() == 8 && (frame@.id == 0x100
                || frame@.id == 0x101 || frame@.id == 0x102 || frame@.id == 0x200)),
            !frame@.extended && r is Err ==> r == Err::<(), ChademoError>(
                ChademoError::DecodeBadId(frame@.id as u16),
            ),
            !frame@.extended && frame@.id == 0x100 && frame@.data.len() == 8 ==> *final(self)
                == (Chademo { x100: x100_of_bytes(frame@.data), ..*old(self) }),
            !frame@.extended && frame@.id == 0x101 && frame@.data.len() == 8 ==> *final(self)
                == (Chademo { x101: x101_of_bytes(frame@.data), ..*old(self) }),
            !frame@.extended && frame@.id == 0x102 && frame@.data.len() == 8 ==> *final(self)
                == (Chademo { x102: x102_of_bytes(frame@.data), ..*old(self) }),
            !frame@.extended && frame@.id == 0x200 && frame@.data.len() == 8 ==> *final(self)
                == (Chademo { x200: x200_of_bytes(frame@.data), ..*old(self) }),
    {
        let raw = match standard_id_to_raw(&frame) {
            Ok(v) => v,
            Err(e) => { return Err(e) },
        };
        match raw {
            0x100 => {
                let rec = match X100::from_can(&frame) {
                    Ok(v) => v,
                    Err(e) => { return Err(e) },
                };
                self.x100 = rec;
                Ok(())
            },
            0x101 => {
                let rec = match X101::from_can(&frame) {
                    Ok(v) => v,
                    Err(e) => { return Err(e) },
                };
                self.x101 = rec;
                Ok(())
            },
            0x102 => {
                let rec = match X102::from_can(&frame) {
                    Ok(v) => v,
                    Err(e) => { return Err(e) },
                };
                self.x102 = rec;
                Ok(())
            },
            0x200 => {
                let rec = match X200::from_can(&frame) {
                    Ok(v) => v,
                    Err(e) => { return Err(e) },
                };
                self.x200 = rec;
                Ok(())
            },
            bad_id => Err(ChademoError::DecodeBadId(bad_id)),
        }
    }

    /// Flags to the vehicle that the charge has been cancelled: asserts the
    /// station's stop-control bit (109.5.5). Does not clear currents.
    pub fn request_stop_charge(&mut self)
        ensures
            *final(self) == (Chademo {
                x109: X109 {
                    status: X109Status {
                        status_charger_stop_control: true,
                        ..old(self).x109.status
                    },
                    ..old(self).x109
                },
                ..*old(self)
            }),
    {
        self.x109.status.status_charger_stop_control = true;
    }

    /// The latest decoded vehicle status bit-group.
    pub fn x102_status(&self) -> (r: X102Status)
        ensures
            r == self.x102.status,
    {
        self.x102.status
    }

    /// The current commanded station status bit-group.
    pub fn x109_status(&self) -> (r: X109Status)
        ensures
            r == self.x109.status,
    {
        self.x109.status
    }

    /// Encodes the four station-reported records into outbound frames
    /// reflecting the aggregate's commanded state at the moment of the call.
    pub fn tx_frames(&self) -> (r: [Option<ChademoCanFrame>; 4])
        ensures
            r[0] matches Some(f) && f@ == x108_frame(self.x108),
            r[1] matches Some(f) && f@ == x109_frame(self.x109),
            r[2] matches Some(f) && f@ == x208_frame(self.x208),
            r[3] matches Some(f) && f@ == x209_frame(self.x209),
    {
        [self.x108.to_can(), self.x109.to_can(), self.x208.to_can(), self.x209.to_can()]
    }

    /// Single signed entry point for the dynamic current limits: a
    /// non-negative value sets the commanded charge current (the 0x109
    /// output-current field); a negative value sets the commanded discharge
    /// current, by absolute value, on the 0x208 discharge-input limit.
    /// Either way the magnitude is clamped to the wire byte.
    pub fn update_dynamic_charge_limits(&mut self, amps: i16)
        ensures
            amps >= 0 ==> *final(self) == (Chademo {
                x109: X109 { output_current: sat_u8(amps as int), ..old(self).x109 },
                ..*old(self)
            }),
            amps < 0 ==> *final(self) == (Chademo {
                x208: X208 { input_current: sat_u8(-(amps as int)), ..old(self).x208 },
                ..*old(self)
            }),
    {
        if amps < 0 {
            let mag: i32 = -(amps as i32);
            let clamped: u8 = if mag > 255 {
                255
            } else {
                mag as u8
            };
            self.set_max_discharge_amps(clamped);
        } else {
            let clamped: u8 = if amps > 255 {
                255
            } else {
                amps as u8
            };
            self.set_max_charge_amps(clamped);
        }
    }

    /// The present commanded output voltage.
    pub fn output_volts(&self) -> (r: &u16)
        ensures
            *r == self.x109.output_voltage,
    {
        &self.x109.output_voltage
    }

    /// Sets the commanded charge current.
    fn set_max_charge_amps(&mut self, amps: u8)
        ensures
            *final(self) == (Chademo {
                x109: X109 { output_current: amps, ..old(self).x109 },
                ..*old(self)
            }),
    {
        self.x109.output_current = amps;
    }

    /// Sets the commanded discharge-current limit.
    fn set_max_discharge_amps(&mut self, amps: u8)
        ensures
            *final(self) == (Chademo {
                x208: X208 { input_current: amps, ..old(self).x208 },
                ..*old(self)
            }),
    {
        self.x208.set_input_current(amps);
    }

    /// The vehicle's reported state of charge, in percent.
    pub fn soc(&self) -> (r: &u8)
        ensures
            *r == self.x102.state_of_charge,
    {
        &self.x102.state_of_charge
    }

    /// The vehicle's requested charge current.
    pub fn requested_charging_amps(&self) -> (r: u8)
        ensures
            r == self.x102.charging_current_request,
    {
        self.x102.charging_current_request
    }

    /// The maximum discharge current the vehicle permits.
    pub fn requested_discharging_amps(&self) -> (r: u8)
        ensures
            r == self.x200.maximum_discharge_current,
    {
        self.x200.maximum_discharge_current
    }

    /// The maximum battery capacity with which the vehicle permits charging.
    pub fn max_remaining_capacity_for_charging(&self) -> (r: u8)
        ensures
            r == self.x200.max_remaining_capacity_for_charging,
    {
        self.x200.max_remaining_capacity_for_charging
    }

    /// The raw vehicle contactor status flag (102.5.3; 1 = open).
    pub fn status_vehicle_contactors(&self) -> (r: bool)
        ensures
            r == self.x102.status.status_vehicle,
    {
        self.x102.status.status_vehicle
    }

    /// True iff at least one of the five vehicle fault bits is set.
    pub fn fault(&self) -> (r: bool)
        ensures
            r == x102_any_fault(self.x102.faults),
    {
        self.x102.fault()
    }

    /// The vehicle's target charging voltage.
    pub fn target_voltage(&self) -> (r: &u16)
        ensures
            *r == self.x102.target_battery_voltage,
    {
        &self.x102.target_battery_voltage
    }

    /// The contactor-closure safety gate over the latest vehicle record; see
    /// [`x102_can_close_contactors`].
    pub fn can_close_contactors(&self) -> (r: bool)
        ensures
            r == x102_can_close_contactors(self.x102),
    {
        self.x102.can_close_contactors()
    }

    /// The vehicle's discharge-compatibility status bit.
    pub fn can_discharge(&self) -> (r: bool)
        ensures
            r == self.x102.status.status_discharge_compatible,
    {
        self.x102.can_discharge()
    }

    /// Shifts to the start of charging control: clears stop-control, asserts
    /// station-active, and resets the remaining-time fields to their "not
    /// yet determined" sentinels.
    pub fn charge_start(&mut self)
        ensures
            *final(self) == (Chademo {
                x109: X109 {
                    status: X109Status {
                        status_charger_stop_control: false,
                        status_station: true,
                        ..old(self).x109.status
                    },
                    remaining_charging_time_10s_bit: 255,
                    remaining_charging_time_1min_bit: 60,
                    ..old(self).x109
                },
                ..*old(self)
            }),
    {
        self.x109.status.status_charger_stop_control = false;
        self.x109.status.status_station = true;
        self.x109.remaining_charging_time_10s_bit = 255;
        self.x109.remaining_charging_time_1min_bit = 60;
    }

    /// Ends the charge: zeroes the commanded output voltage, current and
    /// remaining-time fields, and clears all three station-side fault bits.
    pub fn charge_stop(&mut self)
        ensures
            *final(self) == (Chademo {
                x109: X109 {
                    status: X109Status {
                        fault_battery_incompatibility: false,
                        fault_charging_system_malfunction: false,
                        fault_station_malfunction: false,
                        ..old(self).x109.status
                    },
                    output_voltage: 0,
                    output_current: 0,
                    remaining_charging_time_10s_bit: 0,
                    remaining_charging_time_1min_bit: 0,
                    ..old(self).x109
                },
                ..*old(self)
            }),
    {
        self.x109.output_voltage = 0;
        self.x109.output_current = 0;
        self.x109.remaining_charging_time_10s_bit = 0;
        self.x109.remaining_charging_time_1min_bit = 0;
        self.x109.status.fault_battery_incompatibility = false;
        self.x109.status.fault_charging_system_malfunction = false;
        self.x109.status.fault_station_malfunction = false;
    }

    /// Sets the connector-lock status bit (109.5.2) to `state`.
    pub fn plug_lock(&mut self, state: bool)
        ensures
            *final(self) == (Chademo {
                x109: X109 {
                    status: X109Status {
                        status_vehicle_connector_lock: state,
                        ..old(self).x109.status
                    },
                    ..old(self).x109
                },
                ..*old(self)
            }),
    {
        self.x109.status.status_vehicle_connector_lock = state;
    }

    /// The vehicle's charging-enabled status bit (102.5.0).
    pub fn status_vehicle_charging(&self) -> (r: bool)
        ensures
            r == self.x102.status.status_vehicle_charging,
    {
        self.x102.status.status_vehicle_charging
    }

    /// True iff the vehicle contactor status flag (102.5.3) is clear.
    pub fn status_vehicle_ok(&self) -> (r: bool)
        ensures
            r == !self.x102.status.status_vehicle,
    {
        !self.x102.status.status_vehicle
    }

    /// Clears the stop-control bit (charging control may proceed).
    pub fn charging_stop_control_set(&mut self)
        ensures
            *final(self) == (Chademo {
                x109: X109 {
                    status: X109Status {
                        status_charger_stop_control: false,
                        ..old(self).x109.status
                    },
                    ..old(self).x109
                },
                ..*old(self)
            }),
    {
        self.x109.status.status_charger_stop_control = false
    }

    /// Asserts the stop-control bit (charging is halted).
    pub fn charging_stop_control_release(&mut self)
        ensures
            *final(self) == (Chademo {
                x109: X109 {
                    status: X109Status {
                        status_charger_stop_control: true,
                        ..old(self).x109.status
                    },
                    ..old(self).x109
                },
                ..*old(self)
            }),
    {
        self.x109.status.status_charger_stop_control = true
    }
}

} // verus!
