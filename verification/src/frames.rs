//! The per-identifier message records and the bit-exact codec between them
//! and raw frame payloads. Vehicle-reported records (0x100, 0x101, 0x102,
//! 0x200) are decoded only; station-reported records (0x108, 0x109, 0x208,
//! 0x209) are encoded only, except that every station-reported record with a
//! decoder round-trips exactly through its encoder.

use vstd::prelude::*;

use crate::bit_set;
use crate::get_bit;
use crate::error::ChademoError;
use crate::interface::ChademoCanFrame;
use crate::interface::FrameView;
use crate::interface::standard_frame;
use crate::interface::standard_id_to_raw;

verus! {

/// The low byte of a 16-bit scalar on the wire (little-endian).
pub open spec fn u16_lo(v: u16) -> u8 {
    (v & 0xFF) as u8
}

/// The high byte of a 16-bit scalar on the wire (little-endian).
pub open spec fn u16_hi(v: u16) -> u8 {
    (v >> 8) as u8
}

/// A 16-bit scalar read from its two little-endian wire bytes.
pub open spec fn u16_le(lo: u8, hi: u8) -> u16 {
    (lo as u16) | ((hi as u16) << 8)
}

/// Splitting a 16-bit scalar into little-endian bytes and reading it back
/// is the identity.
pub proof fn lemma_u16_le_round_trip(v: u16)
    ensures
        u16_le(u16_lo(v), u16_hi(v)) == v,
{
    assert((((v & 0xFF) as u8) as u16) | ((((v >> 8) as u8) as u16) << 8) == v) by (bit_vector);
}

/// Reads a 16-bit scalar from its two little-endian wire bytes.
pub fn u16_from_le(lo: u8, hi: u8) -> (r: u16)
    ensures
        r == u16_le(lo, hi),
{
    (lo as u16) | ((hi as u16) << 8)
}

/// The low wire byte of a 16-bit scalar.
pub fn u16_to_lo(v: u16) -> (r: u8)
    ensures
        r == u16_lo(v),
{
    proof {
        assert(v & 0xFF <= 0xFF) by (bit_vector);
    }
    (v & 0xFF) as u8
}

/// The high wire byte of a 16-bit scalar.
pub fn u16_to_hi(v: u16) -> (r: u8)
    ensures
        r == u16_hi(v),
{
    proof {
        assert(v >> 8 <= 0xFF) by (bit_vector);
    }
    (v >> 8) as u8
}

/// Vehicle fault bit-group of message 0x102, byte 4. 1 = error, 0 = normal.
#[derive(Debug, Copy, Clone, PartialEq, Eq, Structural)]
pub struct X102Faults {
    /// 102.4.4 - Battery voltage deviation error.
    pub fault_battery_voltage_deviation: bool,
    /// 102.4.3 - High battery temperature.
    pub fault_high_battery_temperature: bool,
    /// 102.4.2 - Battery current deviation error.
    pub fault_battery_current_deviation: bool,
    /// 102.4.1 - Battery undervoltage.
    pub fault_battery_undervoltage: bool,
    /// 102.4.0 - Battery overvoltage.
    pub fault_battery_overvoltage: bool,
}

/// The fault flags read from their protocol-fixed bit positions.
pub open spec fn x102_faults_of_byte(b: u8) -> X102Faults {
    X102Faults {
        fault_battery_voltage_deviation: bit_set(b, 0),
        fault_high_battery_temperature: bit_set(b, 1),
        fault_battery_current_deviation: bit_set(b, 2),
        fault_battery_undervoltage: bit_set(b, 3),
        fault_battery_overvoltage: bit_set(b, 4),
    }
}

/// True iff at least one of the five vehicle fault bits is set; no single
/// bit is privileged.
pub open spec fn x102_any_fault(f: X102Faults) -> bool {
    ||| f.fault_battery_voltage_deviation
    ||| f.fault_high_battery_temperature
    ||| f.fault_battery_current_deviation
    ||| f.fault_battery_undervoltage
    ||| f.fault_battery_overvoltage
}

impl X102Faults {
    /// Decodes the fault byte of message 0x102.
    pub fn from_byte(value: u8) -> (r: X102Faults)
        ensures
            r == x102_faults_of_byte(value),
    {
        X102Faults {
            fault_battery_overvoltage: get_bit(value, 4),
            fault_battery_undervoltage: get_bit(value, 3),
            fault_battery_current_deviation: get_bit(value, 2),
            fault_high_battery_temperature: get_bit(value, 1),
            fault_battery_voltage_deviation: get_bit(value, 0),
        }
    }

    /// The OR of all five fault bits.
    pub fn any(&self) -> (r: bool)
        ensures
            r == x102_any_fault(*self),
    {
        self.fault_battery_voltage_deviation || self.fault_high_battery_temperature
            || self.fault_battery_current_deviation || self.fault_battery_undervoltage
            || self.fault_battery_overvoltage
    }
}

impl Default for X102Faults {
    /// All five fault bits clear.
    fn default() -> (r: X102Faults)
        ensures
            r == x102_faults_of_byte(0),
    {
        proof {
            assert(!bit_set(0, 0) && !bit_set(0, 1) && !bit_set(0, 2) && !bit_set(0, 3) && !bit_set(
                0,
                4,
            )) by (bit_vector);
        }
        X102Faults {
            fault_battery_voltage_deviation: false,
            fault_high_battery_temperature: false,
            fault_battery_current_deviation: false,
            fault_battery_undervoltage: false,
            fault_battery_overvoltage: false,
        }
    }
}

/// Vehicle status bit-group of message 0x102, byte 5.
#[derive(Debug, Copy, Clone, PartialEq, Eq, Structural)]
pub struct X102Status {
    /// 102.5.7 - The vehicle is compatible with discharging (V2H mode).
    pub status_discharge_compatible: bool,
    /// 102.5.4 - The vehicle instructs the station to stop charging control.
    pub status_normal_stop_request: bool,
    /// 102.5.3 - OPEN/CLOSE status of the EV contactors: 1 = open.
    pub status_vehicle: bool,
    /// 102.5.2 - A malfunction originated in the vehicle: 0 = ok, 1 = fault.
    pub status_charging_system: bool,
    /// 102.5.1 - Shift lever position: 0 = parking, 1 = any other position.
    pub status_vehicle_shifter_position: bool,
    /// 102.5.0 - Charging/discharging permission of the vehicle: 1 = enabled.
    pub status_vehicle_charging: bool,
}

/// The status flags read from their protocol-fixed bit positions.
pub open spec fn x102_status_of_byte(b: u8) -> X102Status {
    X102Status {
        status_discharge_compatible: bit_set(b, 7),
        status_normal_stop_request: bit_set(b, 4),
        status_vehicle: bit_set(b, 3),
        status_charging_system: bit_set(b, 2),
        status_vehicle_shifter_position: bit_set(b, 1),
        status_vehicle_charging: bit_set(b, 0),
    }
}

/// The status flags written back to their protocol-fixed bit positions.
pub open spec fn x102_status_to_byte(s: X102Status) -> u8 {
    (if s.status_discharge_compatible {
        0x80u8
    } else {
        0u8
    }) | (if s.status_normal_stop_request {
        0x10u8
    } else {
        0u8
    }) | (if s.status_vehicle {
        0x08u8
    } else {
        0u8
    }) | (if s.status_charging_system {
        0x04u8
    } else {
        0u8
    }) | (if s.status_vehicle_shifter_position {
        0x02u8
    } else {
        0u8
    }) | (if s.status_vehicle_charging {
        0x01u8
    } else {
        0u8
    })
}

/// Encoding the vehicle status flags and decoding the byte again yields the
/// same flags.
pub proof fn lemma_x102_status_bits_round_trip(s: X102Status)
    ensures
        x102_status_of_byte(x102_status_to_byte(s)) == s,
{
    let a = s.status_discharge_compatible;
    let b = s.status_normal_stop_request;
    let c = s.status_vehicle;
    let d = s.status_charging_system;
    let e = s.status_vehicle_shifter_position;
    let f = s.status_vehicle_charging;
    let byte = (if a {
        0x80u8
    } else {
        0u8
    }) | (if b {
        0x10u8
    } else {
        0u8
    }) | (if c {
        0x08u8
    } else {
        0u8
    }) | (if d {
        0x04u8
    } else {
        0u8
    }) | (if e {
        0x02u8
    } else {
        0u8
    }) | (if f {
        0x01u8
    } else {
        0u8
    });
    assert(bit_set(byte, 7) == a && bit_set(byte, 4) == b && bit_set(byte, 3) == c && bit_set(
        byte,
        2,
    ) == d && bit_set(byte, 1) == e && bit_set(byte, 0) == f) by (bit_vector)
        requires
            byte == (if a {
                0x80u8
            } else {
                0u8
            }) | (if b {
                0x10u8
            } else {
                0u8
            }) | (if c {
                0x08u8
            } else {
                0u8
            }) | (if d {
                0x04u8
            } else {
                0u8
            }) | (if e {
                0x02u8
            } else {
                0u8
            }) | (if f {
                0x01u8
            } else {
                0u8
            }),
    ;
}

/// Decoding a byte restricted to the defined vehicle status bits and
/// encoding the flags again yields the same byte.
pub proof fn lemma_x102_status_byte_round_trip(b: u8)
    requires
        b & 0x9F == b,
    ensures
        x102_status_to_byte(x102_status_of_byte(b)) == b,
{
    assert(((if bit_set(b, 7) {
        0x80u8
    } else {
        0u8
    }) | (if bit_set(b, 4) {
        0x10u8
    } else {
        0u8
    }) | (if bit_set(b, 3) {
        0x08u8
    } else {
        0u8
    }) | (if bit_set(b, 2) {
        0x04u8
    } else {
        0u8
    }) | (if bit_set(b, 1) {
        0x02u8
    } else {
        0u8
    }) | (if bit_set(b, 0) {
        0x01u8
    } else {
        0u8
    })) == b) by (bit_vector)
        requires
            b & 0x9F == b,
    ;
}

impl X102Status {
    /// Decodes the status byte of message 0x102.
    pub fn from_byte(val: u8) -> (r: X102Status)
        ensures
            r == x102_status_of_byte(val),
    {
        X102Status {
            status_discharge_compatible: get_bit(val, 7),
            status_normal_stop_request: get_bit(val, 4),
            status_vehicle: get_bit(val, 3),
            status_charging_system: get_bit(val, 2),
            status_vehicle_shifter_position: get_bit(val, 1),
            status_vehicle_charging: get_bit(val, 0),
        }
    }

    /// Encodes the status flags back into the wire byte.
    pub fn to_byte(&self) -> (r: u8)
        ensures
            r == x102_status_to_byte(*self),
    {
        (if self.status_discharge_compatible {
            0x80u8
        } else {
            0u8
        }) | (if self.status_normal_stop_request {
            0x10u8
        } else {
            0u8
        }) | (if self.status_vehicle {
            0x08u8
        } else {
            0u8
        }) | (if self.status_charging_system {
            0x04u8
        } else {
            0u8
        }) | (if self.status_vehicle_shifter_position {
            0x02u8
        } else {
            0u8
        }) | (if self.status_vehicle_charging {
            0x01u8
        } else {
            0u8
        })
    }
}

impl Default for X102Status {
    /// All six status bits clear.
    fn default() -> (r: X102Status)
        ensures
            r == x102_status_of_byte(0),
    {
        proof {
            assert(!bit_set(0, 0) && !bit_set(0, 1) && !bit_set(0, 2) && !bit_set(0, 3) && !bit_set(
                0,
                4,
            ) && !bit_set(0, 7)) by (bit_vector);
        }
        X102Status {
            status_discharge_compatible: false,
            status_normal_stop_request: false,
            status_vehicle: false,
            status_charging_system: false,
            status_vehicle_shifter_position: false,
            status_vehicle_charging: false,
        }
    }
}

/// Station status/fault bit-group of message 0x109, byte 5.
#[derive(Debug, Copy, Clone, PartialEq, Eq, Structural)]
pub struct X109Status {
    /// 109.5.5 - Charging stop control: 1 before charging and on any shift
    /// to the stop process, 0 after the start of charging control.
    pub status_charger_stop_control: bool,
    /// 109.5.4 - Error flag indicating a vehicle or charger error.
    pub fault_charging_system_malfunction: bool,
    /// 109.5.3 - The station's available output voltage does not suit the
    /// traction battery.
    pub fault_battery_incompatibility: bool,
    /// 109.5.2 - Voltage can be applied from the charger / output permitted.
    pub status_vehicle_connector_lock: bool,
    /// 109.5.1 - Error flag indicating the charger's own error.
    pub fault_station_malfunction: bool,
    /// 109.5.0 - 1 during charging, 0 before charging and at its end.
    pub status_station: bool,
}

/// The station status flags read from their protocol-fixed bit positions.
pub open spec fn x109_status_of_byte(b: u8) -> X109Status {
    X109Status {
        status_charger_stop_control: bit_set(b, 5),
        fault_charging_system_malfunction: bit_set(b, 4),
        fault_battery_incompatibility: bit_set(b, 3),
        status_vehicle_connector_lock: bit_set(b, 2),
        fault_station_malfunction: bit_set(b, 1),
        status_station: bit_set(b, 0),
    }
}

/// The station status flags written back to their protocol-fixed bit
/// positions.
pub open spec fn x109_status_to_byte(s: X109Status) -> u8 {
    (if s.status_charger_stop_control {
        0x20u8
    } else {
        0u8
    }) | (if s.fault_charging_system_malfunction {
        0x10u8
    } else {
        0u8
    }) | (if s.fault_battery_incompatibility {
        0x08u8
    } else {
        0u8
    }) | (if s.status_vehicle_connector_lock {
        0x04u8
    } else {
        0u8
    }) | (if s.fault_station_malfunction {
        0x02u8
    } else {
        0u8
    }) | (if s.status_station {
        0x01u8
    } else {
        0u8
    })
}

/// Encoding the station status flags and decoding the byte again yields the
/// same flags.
pub proof fn lemma_x109_status_bits_round_trip(s: X109Status)
    ensures
        x109_status_of_byte(x109_status_to_byte(s)) == s,
{
    let a = s.status_charger_stop_control;
    let b = s.fault_charging_system_malfunction;
    let c = s.fault_battery_incompatibility;
    let d = s.status_vehicle_connector_lock;
    let e = s.fault_station_malfunction;
    let f = s.status_station;
    let byte = (if a {
        0x20u8
    } else {
        0u8
    }) | (if b {
        0x10u8
    } else {
        0u8
    }) | (if c {
        0x08u8
    } else {
        0u8
    }) | (if d {
        0x04u8
    } else {
        0u8
    }) | (if e {
        0x02u8
    } else {
        0u8
    }) | (if f {
        0x01u8
    } else {
        0u8
    });
    assert(bit_set(byte, 5) == a && bit_set(byte, 4) == b && bit_set(byte, 3) == c && bit_set(
        byte,
        2,
    ) == d && bit_set(byte, 1) == e && bit_set(byte, 0) == f) by (bit_vector)
        requires
            byte == (if a {
                0x20u8
            } else {
                0u8
            }) | (if b {
                0x10u8
            } else {
                0u8
            }) | (if c {
                0x08u8
            } else {
                0u8
            }) | (if d {
                0x04u8
            } else {
                0u8
            }) | (if e {
                0x02u8
            } else {
                0u8
            }) | (if f {
                0x01u8
            } else {
                0u8
            }),
    ;
}

/// Decoding a byte restricted to the defined station status bits and
/// encoding the flags again yields the same byte.
pub proof fn lemma_x109_status_byte_round_trip(b: u8)
    requires
        b & 0x3F == b,
    ensures
        x109_status_to_byte(x109_status_of_byte(b)) == b,
{
    assert(((if bit_set(b, 5) {
        0x20u8
    } else {
        0u8
    }) | (if bit_set(b, 4) {
        0x10u8
    } else {
        0u8
    }) | (if bit_set(b, 3) {
        0x08u8
    } else {
        0u8
    }) | (if bit_set(b, 2) {
        0x04u8
    } else {
        0u8
    }) | (if bit_set(b, 1) {
        0x02u8
    } else {
        0u8
    }) | (if bit_set(b, 0) {
        0x01u8
    } else {
        0u8
    })) == b) by (bit_vector)
        requires
            b & 0x3F == b,
    ;
}

impl X109Status {
    /// Decodes the status byte of message 0x109.
    pub fn from_byte(value: u8) -> (r: X109Status)
        ensures
            r == x109_status_of_byte(value),
    {
        X109Status {
            status_charger_stop_control: get_bit(value, 5),
            fault_charging_system_malfunction: get_bit(value, 4),
            fault_battery_incompatibility: get_bit(value, 3),
            status_vehicle_connector_lock: get_bit(value, 2),
            fault_station_malfunction: get_bit(value, 1),
            status_station: get_bit(value, 0),
        }
    }

    /// Encodes the status flags back into the wire byte.
    pub fn to_byte(&self) -> (r: u8)
        ensures
            r == x109_status_to_byte(*self),
    {
        (if self.status_charger_stop_control {
            0x20u8
        } else {
            0u8
        }) | (if self.fault_charging_system_malfunction {
            0x10u8
        } else {
            0u8
        }) | (if self.fault_battery_incompatibility {
            0x08u8
        } else {
            0u8
        }) | (if self.status_vehicle_connector_lock {
            0x04u8
        } else {
            0u8
        }) | (if self.fault_station_malfunction {
            0x02u8
        } else {
            0u8
        }) | (if self.status_station {
            0x01u8
        } else {
            0u8
        })
    }
}

impl Default for X109Status {
    /// All six status bits clear.
    fn default() -> (r: X109Status)
        ensures
            r == x109_status_of_byte(0),
    {
        proof {
            assert(!bit_set(0, 0) && !bit_set(0, 1) && !bit_set(0, 2) && !bit_set(0, 3) && !bit_set(
                0,
                4,
            ) && !bit_set(0, 5)) by (bit_vector);
        }
        X109Status {
            status_charger_stop_control: false,
            fault_charging_system_malfunction: false,
            fault_battery_incompatibility: false,
            status_vehicle_connector_lock: false,
            fault_station_malfunction: false,
            status_station: false,
        }
    }
}

} // verus!

verus! {

/// Builds the fixed 8-byte payload of an outbound message.
fn payload8(b0: u8, b1: u8, b2: u8, b3: u8, b4: u8, b5: u8, b6: u8, b7: u8) -> (r: Vec<u8>)
    ensures
        r@ =~= seq![b0, b1, b2, b3, b4, b5, b6, b7],
{
    let mut v: Vec<u8> = Vec::new();
    v.push(b0);
    v.push(b1);
    v.push(b2);
    v.push(b3);
    v.push(b4);
    v.push(b5);
    v.push(b6);
    v.push(b7);
    v
}

/// Vehicle-reported record of message 0x100: the charge-current floor and
/// the battery voltage window.
#[derive(Debug, Copy, Clone, PartialEq, Eq, Structural)]
pub struct X100 {
    /// Minimum current defined by the vehicle.
    pub minimum_charge_current: u8,
    /// Lower limit voltage for backup to stop by a charger.
    pub minimum_battery_voltage: u16,
    /// Upper limit voltage for backup to stop by a charger.
    pub maximum_battery_voltage: u16,
    /// Fixed value (0x64: 100 %) related to charged rate.
    pub constant_of_charging_rate_indication: u8,
}

/// The 0x100 record read from an 8-byte payload.
pub open spec fn x100_of_bytes(d: Seq<u8>) -> X100
    recommends
        d.len() == 8,
{
    X100 {
        minimum_charge_current: d[0],
        minimum_battery_voltage: u16_le(d[2], d[3]),
        maximum_battery_voltage: u16_le(d[4], d[5]),
        constant_of_charging_rate_indication: d[6],
    }
}

/// How a record decoder answers for a given frame: success exactly on a
/// standard-identifier frame with the expected identifier and the fixed
/// 8-byte payload; the matching error otherwise.
pub open spec fn decode_outcome<R>(f: FrameView, expected_id: u16, r: Result<R, ChademoError>, record: R) -> bool {
    &&& (r is Ok <==> (!f.extended && f.id == expected_id && f.data.len() == 8))
    &&& (r is Ok ==> r == Ok::<R, ChademoError>(record))
    &&& (f.extended ==> r == Err::<R, ChademoError>(ChademoError::DecodeBadIdExt))
    &&& (!f.extended && !(f.id == expected_id && f.data.len() == 8) ==> r == Err::<R, ChademoError>(
        ChademoError::DecodeBadId(f.id as u16),
    ))
}

impl X100 {
    /// Decodes message 0x100 from a received frame.
    pub fn from_can(frame: &ChademoCanFrame) -> (r: Result<X100, ChademoError>)
        ensures
            decode_outcome(frame@, 0x100, r, x100_of_bytes(frame@.data)),
    {
        let raw = match standard_id_to_raw(frame) {
            Ok(v) => v,
            Err(e) => { return Err(e) },
        };
        if raw != 0x100 || frame.dlc() != 8 {
            return Err(ChademoError::DecodeBadId(raw));
        }
        let d = frame.data();
        Ok(
            X100 {
                minimum_battery_voltage: u16_from_le(d[2], d[3]),
                maximum_battery_voltage: u16_from_le(d[4], d[5]),
                constant_of_charging_rate_indication: d[6],
                minimum_charge_current: d[0],
            },
        )
    }
}

/// The all-zero 0x100 record a session starts from.
pub open spec fn x100_default() -> X100 {
    X100 {
        minimum_charge_current: 0,
        minimum_battery_voltage: 0,
        maximum_battery_voltage: 0,
        constant_of_charging_rate_indication: 0,
    }
}

impl Default for X100 {
    /// The all-zero record a session starts from.
    fn default() -> (r: X100)
        ensures
            r == x100_default(),
    {
        X100 {
            minimum_charge_current: 0,
            minimum_battery_voltage: 0,
            maximum_battery_voltage: 0,
            constant_of_charging_rate_indication: 0,
        }
    }
}

/// Vehicle-reported record of message 0x101: the permitted charge-time
/// window and the rated battery capacity.
#[derive(Debug, Copy, Clone, PartialEq, Eq, Structural)]
pub struct X101 {
    /// Maximum charging time the vehicle permits, in 10 s units.
    pub max_charging_time_10s_bit: u8,
    /// Maximum charging time the vehicle permits, in 1 min units.
    pub max_charging_time_1min_bit: u8,
    /// Estimated time until the stop of charging.
    pub estimated_charging_time: u8,
    /// Total capacity of the battery.
    pub rated_battery_capacity: u16,
}

/// The 0x101 record read from an 8-byte payload.
pub open spec fn x101_of_bytes(d: Seq<u8>) -> X101
    recommends
        d.len() == 8,
{
    X101 {
        max_charging_time_10s_bit: d[1],
        max_charging_time_1min_bit: d[2],
        estimated_charging_time: d[3],
        rated_battery_capacity: u16_le(d[5], d[6]),
    }
}

impl X101 {
    /// Decodes message 0x101 from a received frame.
    pub fn from_can(frame: &ChademoCanFrame) -> (r: Result<X101, ChademoError>)
        ensures
            decode_outcome(frame@, 0x101, r, x101_of_bytes(frame@.data)),
    {
        let raw = match standard_id_to_raw(frame) {
            Ok(v) => v,
            Err(e) => { return Err(e) },
        };
        if raw != 0x101 || frame.dlc() != 8 {
            return Err(ChademoError::DecodeBadId(raw));
        }
        let d = frame.data();
        Ok(
            X101 {
                max_charging_time_10s_bit: d[1],
                max_charging_time_1min_bit: d[2],
                estimated_charging_time: d[3],
                rated_battery_capacity: u16_from_le(d[5], d[6]),
            },
        )
    }
}

/// The all-zero 0x101 record a session starts from.
pub open spec fn x101_default() -> X101 {
    X101 {
        max_charging_time_10s_bit: 0,
        max_charging_time_1min_bit: 0,
        estimated_charging_time: 0,
        rated_battery_capacity: 0,
    }
}

impl Default for X101 {
    /// The all-zero record a session starts from.
    fn default() -> (r: X101)
        ensures
            r == x101_default(),
    {
        X101 {
            max_charging_time_10s_bit: 0,
            max_charging_time_1min_bit: 0,
            estimated_charging_time: 0,
            rated_battery_capacity: 0,
        }
    }
}

/// Vehicle-reported record of message 0x102: protocol version, target
/// voltage, requested current, the fault and status bit-groups, and the
/// state of charge.
#[derive(Debug, Copy, Clone, PartialEq, Eq, Structural)]
pub struct X102 {
    /// CHAdeMO protocol number.
    pub control_protocol_number_ev: u8,
    /// Target value of charging voltage.
    pub target_battery_voltage: u16,
    /// Charging current request.
    pub charging_current_request: u8,
    /// The five vehicle fault flags.
    pub faults: X102Faults,
    /// The six vehicle status flags.
    pub status: X102Status,
    /// State of charge of the battery, in percent.
    pub state_of_charge: u8,
}

/// The 0x102 record read from an 8-byte payload.
pub open spec fn x102_of_bytes(d: Seq<u8>) -> X102
    recommends
        d.len() == 8,
{
    X102 {
        control_protocol_number_ev: d[0],
        target_battery_voltage: u16_le(d[1], d[2]),
        charging_current_request: d[3],
        faults: x102_faults_of_byte(d[4]),
        status: x102_status_of_byte(d[5]),
        state_of_charge: d[6],
    }
}

/// The single safety gate before the station may energize its contactors:
/// no normal-stop request, no charging-system fault, shifter parked,
/// vehicle-side contactor status flag set, charging enabled, and a target
/// voltage strictly greater than zero. Each term is an independent veto.
pub open spec fn x102_can_close_contactors(x: X102) -> bool {
    &&& !x.status.status_normal_stop_request
    &&& !x.status.status_charging_system
    &&& !x.status.status_vehicle_shifter_position
    &&& x.status.status_vehicle
    &&& x.status.status_vehicle_charging
    &&& x.target_battery_voltage > 0
}

impl X102 {
    /// True iff at least one of the five vehicle fault bits is set; false
    /// iff all five are clear.
    pub fn fault(&self) -> (r: bool)
        ensures
            r == x102_any_fault(self.faults),
    {
        self.faults.any()
    }

    /// True iff the vehicle status bit 102.5.3 is clear.
    pub fn contactors_closed(&self) -> (r: bool)
        ensures
            r == !self.status.status_vehicle,
    {
        !self.status.status_vehicle
    }

    /// The vehicle's discharge-compatibility status bit.
    pub fn can_discharge(&self) -> (r: bool)
        ensures
            r == self.status.status_discharge_compatible,
    {
        self.status.status_discharge_compatible
    }

    /// The vehicle's charging-enabled status bit (102.5.0).
    pub fn car_ready(&self) -> (r: bool)
        ensures
            r == self.status.status_vehicle_charging,
    {
        self.status.status_vehicle_charging
    }

    /// The contactor-closure safety gate; see [`x102_can_close_contactors`].
    pub fn can_close_contactors(&self) -> (r: bool)
        ensures
            r == x102_can_close_contactors(*self),
    {
        !(self.status.status_normal_stop_request || self.status.status_charging_system
            || self.status.status_vehicle_shifter_position) && self.status.status_vehicle
            && self.status.status_vehicle_charging && self.target_battery_voltage > 0
    }

    /// The vehicle record never requests a stop by itself.
    pub fn stop(&self) -> (r: bool)
        ensures
            r == false,
    {
        false
    }

    /// Decodes message 0x102 from a received frame.
    pub fn from_can(frame: &ChademoCanFrame) -> (r: Result<X102, ChademoError>)
        ensures
            decode_outcome(frame@, 0x102, r, x102_of_bytes(frame@.data)),
    {
        let raw = match standard_id_to_raw(frame) {
            Ok(v) => v,
            Err(e) => { return Err(e) },
        };
        if raw != 0x102 || frame.dlc() != 8 {
            return Err(ChademoError::DecodeBadId(raw));
        }
        let d = frame.data();
        Ok(
            X102 {
                control_protocol_number_ev: d[0],
                target_battery_voltage: u16_from_le(d[1], d[2]),
                charging_current_request: d[3],
                faults: X102Faults::from_byte(d[4]),
                status: X102Status::from_byte(d[5]),
                state_of_charge: d[6],
            },
        )
    }
}

/// The all-zero 0x102 record a session starts from: every scalar zero and
/// every fault and status flag clear.
pub open spec fn x102_default() -> X102 {
    X102 {
        control_protocol_number_ev: 0,
        target_battery_voltage: 0,
        charging_current_request: 0,
        faults: x102_faults_of_byte(0),
        status: x102_status_of_byte(0),
        state_of_charge: 0,
    }
}

impl Default for X102 {
    /// The all-zero record a session starts from.
    fn default() -> (r: X102)
        ensures
            r == x102_default(),
    {
        X102 {
            control_protocol_number_ev: 0,
            target_battery_voltage: 0,
            charging_current_request: 0,
            faults: X102Faults::default(),
            status: X102Status::default(),
            state_of_charge: 0,
        }
    }
}

} // verus!

verus! {

/// Station-reported record of message 0x108: the output capability of the
/// station.
#[derive(Debug, Copy, Clone, PartialEq, Eq, Structural)]
pub struct X108 {
    /// 108.3 - Current the station can output at present.
    pub available_output_current: u8,
    /// 108.1-2 - Maximum output voltage of the station.
    pub avaible_output_voltage: u16,
    /// 108.0 - Identifier of the output circuit characteristic, for welding
    /// detection of the EV contactor.
    pub welding_detection: u8,
    /// 108.4-5 - Judgmental voltage to stop charging for battery protection.
    pub threshold_voltage: u16,
}

/// The 8-byte payload the 0x108 record encodes to.
pub open spec fn x108_bytes(r: X108) -> Seq<u8> {
    seq![
        r.welding_detection,
        u16_lo(r.avaible_output_voltage),
        u16_hi(r.avaible_output_voltage),
        r.available_output_current,
        u16_lo(r.threshold_voltage),
        u16_hi(r.threshold_voltage),
        0u8,
        0u8,
    ]
}

/// The frame the 0x108 record encodes to.
pub open spec fn x108_frame(r: X108) -> FrameView {
    FrameView { id: 0x108, extended: false, rtr: false, data: x108_bytes(r) }
}

impl X108 {
    /// Encodes the record into its outbound frame; succeeds for every
    /// record.
    pub fn to_can(&self) -> (r: Option<ChademoCanFrame>)
        ensures
            r matches Some(f) && f@ == x108_frame(*self),
    {
        let aov_lo = u16_to_lo(self.avaible_output_voltage);
        let aov_hi = u16_to_hi(self.avaible_output_voltage);
        let tv_lo = u16_to_lo(self.threshold_voltage);
        let tv_hi = u16_to_hi(self.threshold_voltage);
        let bytes = payload8(
            self.welding_detection,
            aov_lo,
            aov_hi,
            self.available_output_current,
            tv_lo,
            tv_hi,
            0,
            0,
        );
        Some(standard_frame(0x108, bytes))
    }

    /// Builds the output-capability record; the welding-detection flag is
    /// stored as its wire byte (1 = enabled).
    pub fn new(
        available_output_current: u8,
        avaible_output_voltage: u16,
        welding_detection: bool,
        threshold_voltage: u16,
    ) -> (r: X108)
        ensures
            r == (X108 {
                available_output_current,
                avaible_output_voltage,
                welding_detection: if welding_detection {
                    1u8
                } else {
                    0u8
                },
                threshold_voltage,
            }),
    {
        X108 {
            available_output_current,
            avaible_output_voltage,
            welding_detection: if welding_detection {
                1
            } else {
                0
            },
            threshold_voltage,
        }
    }
}

/// Station-reported record of message 0x109: the present output and the
/// station status/fault bit-group.
#[derive(Debug, Copy, Clone, PartialEq, Eq, Structural)]
pub struct X109 {
    /// The six station status/fault flags.
    pub status: X109Status,
    /// CHAdeMO protocol number of the station.
    pub control_protocol_number_qc: u8,
    /// Present output voltage.
    pub output_voltage: u16,
    /// Present (commanded) output current.
    pub output_current: u8,
    /// The station is compatible with discharging.
    pub discharge_compatitiblity: bool,
    /// Remaining charging time, in 10 s units.
    pub remaining_charging_time_10s_bit: u8,
    /// Remaining charging time, in 1 min units.
    pub remaining_charging_time_1min_bit: u8,
}

/// The 8-byte payload the 0x109 record encodes to.
pub open spec fn x109_bytes(r: X109) -> Seq<u8> {
    seq![
        r.control_protocol_number_qc,
        u16_lo(r.output_voltage),
        u16_hi(r.output_voltage),
        r.output_current,
        (if r.discharge_compatitiblity {
            1u8
        } else {
            0u8
        }),
        x109_status_to_byte(r.status),
        r.remaining_charging_time_10s_bit,
        r.remaining_charging_time_1min_bit,
    ]
}

/// The frame the 0x109 record encodes to.
pub open spec fn x109_frame(r: X109) -> FrameView {
    FrameView { id: 0x109, extended: false, rtr: false, data: x109_bytes(r) }
}

/// The 0x109 record read from an 8-byte payload.
pub open spec fn x109_of_bytes(d: Seq<u8>) -> X109
    recommends
        d.len() == 8,
{
    X109 {
        control_protocol_number_qc: d[0],
        output_voltage: u16_le(d[1], d[2]),
        output_current: d[3],
        discharge_compatitiblity: d[4] == 1,
        status: x109_status_of_byte(d[5]),
        remaining_charging_time_10s_bit: d[6],
        remaining_charging_time_1min_bit: d[7],
    }
}

/// The freshly constructed 0x109 record: stop-control asserted (safe), all
/// other flags clear, zero output, and both remaining-time fields at their
/// "not yet determined" sentinel.
pub open spec fn x109_new_spec(control_protocol_number_qc: u8, discharge_compatitiblity: bool) -> X109 {
    X109 {
        status: X109Status {
            status_charger_stop_control: true,
            fault_charging_system_malfunction: false,
            fault_battery_incompatibility: false,
            status_vehicle_connector_lock: false,
            fault_station_malfunction: false,
            status_station: false,
        },
        control_protocol_number_qc,
        output_voltage: 0,
        output_current: 0,
        discharge_compatitiblity,
        remaining_charging_time_10s_bit: 255,
        remaining_charging_time_1min_bit: 255,
    }
}

impl X109 {
    /// Encodes the record into its outbound frame; succeeds for every
    /// record.
    pub fn to_can(&self) -> (r: Option<ChademoCanFrame>)
        ensures
            r matches Some(f) && f@ == x109_frame(*self),
    {
        let v_lo = u16_to_lo(self.output_voltage);
        let v_hi = u16_to_hi(self.output_voltage);
        let bytes = payload8(
            self.control_protocol_number_qc,
            v_lo,
            v_hi,
            self.output_current,
            if self.discharge_compatitiblity {
                1
            } else {
                0
            },
            self.status.to_byte(),
            self.remaining_charging_time_10s_bit,
            self.remaining_charging_time_1min_bit,
        );
        Some(standard_frame(0x109, bytes))
    }

    /// Builds the station status record in its safe initial state; see
    /// [`x109_new_spec`].
    pub fn new(control_protocol_number_qc: u8, discharge_compatitiblity: bool) -> (r: X109)
        ensures
            r == x109_new_spec(control_protocol_number_qc, discharge_compatitiblity),
    {
        let status = X109Status {
            status_charger_stop_control: true,
            fault_charging_system_malfunction: false,
            fault_battery_incompatibility: false,
            status_vehicle_connector_lock: false,
            fault_station_malfunction: false,
            status_station: false,
        };
        X109 {
            control_protocol_number_qc,
            discharge_compatitiblity,
            remaining_charging_time_10s_bit: 255,
            remaining_charging_time_1min_bit: 255,
            status,
            output_voltage: 0,
            output_current: 0,
        }
    }

    /// Decodes message 0x109 from a frame, the exact inverse of `to_can`.
    pub fn from_can(frame: &ChademoCanFrame) -> (r: Result<X109, ChademoError>)
        ensures
            decode_outcome(frame@, 0x109, r, x109_of_bytes(frame@.data)),
    {
        let raw = match standard_id_to_raw(frame) {
            Ok(v) => v,
            Err(e) => { return Err(e) },
        };
        if raw != 0x109 || frame.dlc() != 8 {
            return Err(ChademoError::DecodeBadId(raw));
        }
        let d = frame.data();
        Ok(
            X109 {
                control_protocol_number_qc: d[0],
                output_voltage: u16_from_le(d[1], d[2]),
                output_current: d[3],
                discharge_compatitiblity: d[4] == 1,
                status: X109Status::from_byte(d[5]),
                remaining_charging_time_10s_bit: d[6],
                remaining_charging_time_1min_bit: d[7],
            },
        )
    }
}

/// Encoding a 0x109 record and decoding the payload again yields the same
/// record.
pub proof fn lemma_x109_round_trip(r: X109)
    ensures
        x109_of_bytes(x109_bytes(r)) == r,
{
    lemma_u16_le_round_trip(r.output_voltage);
    lemma_x109_status_bits_round_trip(r.status);
}

/// Vehicle-reported record of message 0x200: the discharge limits of the
/// vehicle.
#[derive(Debug, Copy, Clone, PartialEq, Eq, Structural)]
pub struct X200 {
    /// Maximum discharge current the vehicle permits the station.
    pub maximum_discharge_current: u8,
    /// Minimum voltage down to which the vehicle can discharge.
    pub minimum_discharge_voltage: u16,
    /// Minimum battery capacity with which the vehicle permits discharging.
    pub minimum_battery_discharge_level: u8,
    /// Maximum battery capacity with which the vehicle permits charging.
    pub max_remaining_capacity_for_charging: u8,
}

/// The 0x200 record read from an 8-byte payload. The discharge-current and
/// min-discharge-battery-level fields use the inverted "headroom" encoding:
/// the wire carries `255 - value`.
pub open spec fn x200_of_bytes(d: Seq<u8>) -> X200
    recommends
        d.len() == 8,
{
    X200 {
        maximum_discharge_current: (255 - d[0]) as u8,
        minimum_discharge_voltage: u16_le(d[4], d[5]),
        minimum_battery_discharge_level: (255 - d[6]) as u8,
        max_remaining_capacity_for_charging: d[7],
    }
}

impl X200 {
    /// Decodes message 0x200 from a received frame.
    pub fn from_can(frame: &ChademoCanFrame) -> (r: Result<X200, ChademoError>)
        ensures
            decode_outcome(frame@, 0x200, r, x200_of_bytes(frame@.data)),
    {
        let raw = match standard_id_to_raw(frame) {
            Ok(v) => v,
            Err(e) => { return Err(e) },
        };
        if raw != 0x200 || frame.dlc() != 8 {
            return Err(ChademoError::DecodeBadId(raw));
        }
        let d = frame.data();
        Ok(
            X200 {
                maximum_discharge_current: 255 - d[0],
                minimum_discharge_voltage: u16_from_le(d[4], d[5]),
                minimum_battery_discharge_level: 255 - d[6],
                max_remaining_capacity_for_charging: d[7],
            },
        )
    }
}

/// The all-zero 0x200 record a session starts from.
pub open spec fn x200_default() -> X200 {
    X200 {
        maximum_discharge_current: 0,
        minimum_discharge_voltage: 0,
        minimum_battery_discharge_level: 0,
        max_remaining_capacity_for_charging: 0,
    }
}

impl Default for X200 {
    /// The all-zero record a session starts from.
    fn default() -> (r: X200)
        ensures
            r == x200_default(),
    {
        X200 {
            maximum_discharge_current: 0,
            minimum_discharge_voltage: 0,
            minimum_battery_discharge_level: 0,
            max_remaining_capacity_for_charging: 0,
        }
    }
}

/// Station-reported record of message 0x208: the discharge capability. The
/// current fields use the inverted "headroom" encoding on the wire.
#[derive(Debug, Copy, Clone, PartialEq, Eq, Structural)]
pub struct X208 {
    /// The circuit current measured by the station.
    pub discharge_current: u8,
    /// The minimum voltage with which the station can operate.
    pub input_voltage: u16,
    /// The current at which the station stops discharging to protect its
    /// circuit.
    pub input_current: u8,
    /// The voltage at which the station stops when the vehicle cannot stop
    /// at its own minimum discharge voltage due to a fault.
    pub lower_threshold_voltage: u16,
}

/// The 8-byte payload the 0x208 record encodes to: both current fields are
/// transmitted as `255 - value`.
pub open spec fn x208_bytes(r: X208) -> Seq<u8> {
    seq![
        (255 - r.discharge_current) as u8,
        u16_lo(r.input_voltage),
        u16_hi(r.input_voltage),
        (255 - r.input_current) as u8,
        0u8,
        0u8,
        u16_lo(r.lower_threshold_voltage),
        u16_hi(r.lower_threshold_voltage),
    ]
}

/// The frame the 0x208 record encodes to.
pub open spec fn x208_frame(r: X208) -> FrameView {
    FrameView { id: 0x208, extended: false, rtr: false, data: x208_bytes(r) }
}

/// The 0x208 record read from an 8-byte payload, undoing the inversion of
/// both current fields.
pub open spec fn x208_of_bytes(d: Seq<u8>) -> X208
    recommends
        d.len() == 8,
{
    X208 {
        discharge_current: (255 - d[0]) as u8,
        input_voltage: u16_le(d[1], d[2]),
        input_current: (255 - d[3]) as u8,
        lower_threshold_voltage: u16_le(d[6], d[7]),
    }
}

impl X208 {
    /// Encodes the record into its outbound frame; succeeds for every
    /// record.
    pub fn to_can(&self) -> (r: Option<ChademoCanFrame>)
        ensures
            r matches Some(f) && f@ == x208_frame(*self),
    {
        let iv_lo = u16_to_lo(self.input_voltage);
        let iv_hi = u16_to_hi(self.input_voltage);
        let ltv_lo = u16_to_lo(self.lower_threshold_voltage);
        let ltv_hi = u16_to_hi(self.lower_threshold_voltage);
        let bytes = payload8(
            0xFF - self.discharge_current,
            iv_lo,
            iv_hi,
            0xFF - self.input_current,
            0,
            0,
            ltv_lo,
            ltv_hi,
        );
        Some(standard_frame(0x208, bytes))
    }

    /// Builds the discharge-capability record. `discharge_current` is the
    /// real-time measurement; the input fields are adjustable limits.
    pub fn new(
        discharge_current: u8,
        input_voltage: u16,
        input_current: u8,
        lower_threshold_voltage: u16,
    ) -> (r: X208)
        ensures
            r == (X208 { discharge_current, input_voltage, input_current, lower_threshold_voltage }),
    {
        X208 { discharge_current, input_voltage, input_current, lower_threshold_voltage }
    }

    /// Decodes message 0x208 from a frame, the exact inverse of `to_can`.
    pub fn from_can(frame: &ChademoCanFrame) -> (r: Result<X208, ChademoError>)
        ensures
            decode_outcome(frame@, 0x208, r, x208_of_bytes(frame@.data)),
    {
        let raw = match standard_id_to_raw(frame) {
            Ok(v) => v,
            Err(e) => { return Err(e) },
        };
        if raw != 0x208 || frame.dlc() != 8 {
            return Err(ChademoError::DecodeBadId(raw));
        }
        let d = frame.data();
        Ok(
            X208 {
                discharge_current: 255 - d[0],
                input_voltage: u16_from_le(d[1], d[2]),
                input_current: 255 - d[3],
                lower_threshold_voltage: u16_from_le(d[6], d[7]),
            },
        )
    }

    /// The measured circuit current.
    pub fn get_discharge_current(&self) -> (r: u8)
        ensures
            r == self.discharge_current,
    {
        self.discharge_current
    }

    /// Sets the measured circuit current.
    pub fn set_discharge_current(&mut self, amps: u8)
        ensures
            *final(self) == (X208 { discharge_current: amps, ..*old(self) }),
    {
        self.discharge_current = amps;
    }

    /// The minimum operating voltage.
    pub fn get_input_voltage(&self) -> (r: u16)
        ensures
            r == self.input_voltage,
    {
        self.input_voltage
    }

    /// The discharge-current limit.
    pub fn get_input_current(&self) -> (r: u8)
        ensures
            r == self.input_current,
    {
        self.input_current
    }

    /// The minimum operating voltage (kept for callers of the original
    /// accessor pair).
    pub fn set_input_voltage(&mut self) -> (r: u16)
        ensures
            *final(self) == *old(self),
            r == old(self).input_voltage,
    {
        self.input_voltage
    }

    /// Sets the discharge-current limit.
    pub fn set_input_current(&mut self, amps: u8)
        ensures
            *final(self) == (X208 { input_current: amps, ..*old(self) }),
    {
        self.input_current = amps;
    }

    /// The fault-stop voltage threshold.
    pub fn get_lower_threshold_voltage(&self) -> (r: u16)
        ensures
            r == self.lower_threshold_voltage,
    {
        self.lower_threshold_voltage
    }
}

/// Encoding a 0x208 record and decoding the payload again yields the same
/// record, the inverted current fields included.
pub proof fn lemma_x208_round_trip(r: X208)
    ensures
        x208_of_bytes(x208_bytes(r)) == r,
{
    lemma_u16_le_round_trip(r.input_voltage);
    lemma_u16_le_round_trip(r.lower_threshold_voltage);
}

/// Station-reported record of message 0x209: the discharge sequence number
/// and the remaining discharge time.
#[derive(Debug, Copy, Clone, PartialEq, Eq, Structural)]
pub struct X209 {
    /// Charge/discharge sequence control number.
    pub sequence: u8,
    /// Remaining discharging time.
    pub remaing_discharge_time: u16,
}

/// The 8-byte payload the 0x209 record encodes to.
pub open spec fn x209_bytes(r: X209) -> Seq<u8> {
    seq![
        r.sequence,
        u16_lo(r.remaing_discharge_time),
        u16_hi(r.remaing_discharge_time),
        0u8,
        0u8,
        0u8,
        0u8,
        0u8,
    ]
}

/// The frame the 0x209 record encodes to.
pub open spec fn x209_frame(r: X209) -> FrameView {
    FrameView { id: 0x209, extended: false, rtr: false, data: x209_bytes(r) }
}

/// The 0x209 record read from an 8-byte payload.
pub open spec fn x209_of_bytes(d: Seq<u8>) -> X209
    recommends
        d.len() == 8,
{
    X209 { sequence: d[0], remaing_discharge_time: u16_le(d[1], d[2]) }
}

impl X209 {
    /// Encodes the record into its outbound frame; succeeds for every
    /// record.
    pub fn to_can(&self) -> (r: Option<ChademoCanFrame>)
        ensures
            r matches Some(f) && f@ == x209_frame(*self),
    {
        let t_lo = u16_to_lo(self.remaing_discharge_time);
        let t_hi = u16_to_hi(self.remaing_discharge_time);
        let bytes = payload8(self.sequence, t_lo, t_hi, 0, 0, 0, 0, 0);
        Some(standard_frame(0x209, bytes))
    }

    /// Builds the discharge-sequence record.
    pub fn new(sequence: u8, remaing_discharge_time: u16) -> (r: X209)
        ensures
            r == (X209 { sequence, remaing_discharge_time }),
    {
        X209 { sequence, remaing_discharge_time }
    }

    /// Decodes message 0x209 from a frame, the exact inverse of `to_can`.
    pub fn from_can(frame: &ChademoCanFrame) -> (r: Result<X209, ChademoError>)
        ensures
            decode_outcome(frame@, 0x209, r, x209_of_bytes(frame@.data)),
    {
        let raw = match standard_id_to_raw(frame) {
            Ok(v) => v,
            Err(e) => { return Err(e) },
        };
        if raw != 0x209 || frame.dlc() != 8 {
            return Err(ChademoError::DecodeBadId(raw));
        }
        let d = frame.data();
        Ok(X209 { sequence: d[0], remaing_discharge_time: u16_from_le(d[1], d[2]) })
    }
}

/// Encoding a 0x209 record and decoding the payload again yields the same
/// record.
pub proof fn lemma_x209_round_trip(r: X209)
    ensures
        x209_of_bytes(x209_bytes(r)) == r,
{
    lemma_u16_le_round_trip(r.remaing_discharge_time);
}

} // verus!
