use chademo::error::ChademoError;
use chademo::interface::Data;
use chademo::frames::{X102, X109, X208};
use chademo::interface::ChademoCanFrame;
use chademo::Chademo;

#[test]
fn soc_test() {
    let frame = ChademoCanFrame::new(
        0x102,
        [0x2, 0x9A, 0x1, 0x0E, 0x0, 0xC1, 0x56, 0x0].as_slice(),
    )
    .unwrap();

    let mut chademo = Chademo::new(15);
    chademo.x109 = X109::new(2, true);
    chademo.x102 = X102::from_can(&frame).unwrap();
    assert_eq!(chademo.soc(), &86)
}

#[test]
fn x208_test() {
    let y = X208::new(1, 500, 16, 250);
    println!(
        "{} {} {} {}",
        y.get_discharge_current(),
        y.get_input_voltage(),
        y.get_input_current(),
        y.get_lower_threshold_voltage()
    );
    assert!(y.get_discharge_current() == 1);
    assert!(y.get_input_voltage() == 500);
    assert!(y.get_input_current() == 16);
    assert!(y.get_lower_threshold_voltage() == 250);
    let cf: ChademoCanFrame = y.to_can().unwrap();
    assert!(cf.data()[0] == 0xff - 1);
    assert!(cf.data()[3] == 0xff - 16);

    let y = X208::from_can(&cf).unwrap();
    println!(
        "{} {} {} {}",
        y.get_discharge_current(),
        y.get_input_voltage(),
        y.get_input_current(),
        y.get_lower_threshold_voltage()
    );
    assert!(y.get_discharge_current() == 1);
    assert!(y.get_input_voltage() == 500);
    assert!(y.get_input_current() == 16);
    assert!(y.get_lower_threshold_voltage() == 250);
}

#[test]
fn decode_updates_exactly_one_field() {
    let mut session = Chademo::new(16);
    let before = session.clone();

    let frame = ChademoCanFrame::new(
        0x102,
        [0x02, 0x9A, 0x01, 0x0E, 0x00, 0xC1, 0x56, 0x00].as_slice(),
    )
    .unwrap();
    assert_eq!(session.decode(frame), Ok(()));
    assert_eq!(session.soc(), &86);
    // Only the 0x102 field changed.
    assert_eq!(session.x100, before.x100);
    assert_eq!(session.x101, before.x101);
    assert_eq!(session.x200, before.x200);
    assert_eq!(session.x108, before.x108);
    assert_eq!(session.x109, before.x109);
    assert_eq!(session.x208, before.x208);
    assert_eq!(session.x209, before.x209);

    // 0x200 uses the inverted headroom encoding on two of its fields.
    let frame = ChademoCanFrame::new(
        0x200,
        [0xFF - 20, 0x00, 0x00, 0x00, 0x2C, 0x01, 0xFF - 30, 0x55].as_slice(),
    )
    .unwrap();
    assert_eq!(session.decode(frame), Ok(()));
    assert_eq!(session.x200.maximum_discharge_current, 20);
    assert_eq!(session.x200.minimum_discharge_voltage, 300);
    assert_eq!(session.x200.minimum_battery_discharge_level, 30);
    assert_eq!(session.x200.max_remaining_capacity_for_charging, 0x55);
    assert_eq!(session.requested_discharging_amps(), 20);
    assert_eq!(session.max_remaining_capacity_for_charging(), 0x55);
}

#[test]
fn decode_unrecognized_identifier_mutates_nothing() {
    let mut session = Chademo::new(16);
    let before = session.clone();
    let frame = ChademoCanFrame::new(
        0x105,
        [0x02, 0x9A, 0x01, 0x0E, 0x00, 0xC1, 0x56, 0x00].as_slice(),
    )
    .unwrap();
    assert_eq!(session.decode(frame), Err(ChademoError::DecodeBadId(0x105)));
    assert_eq!(session, before);

    // A station-reported identifier is never decoded either.
    let frame = ChademoCanFrame::new(
        0x109,
        [0x02, 0x00, 0x00, 0x00, 0x01, 0x20, 0x00, 0x00].as_slice(),
    )
    .unwrap();
    assert_eq!(session.decode(frame), Err(ChademoError::DecodeBadId(0x109)));
    assert_eq!(session, before);

    // A recognized identifier with a malformed payload length is rejected
    // without mutation too.
    let frame = ChademoCanFrame::new(0x102, [0x02, 0x9A, 0x01].as_slice()).unwrap();
    assert_eq!(session.decode(frame), Err(ChademoError::DecodeBadId(0x102)));
    assert_eq!(session, before);
}

#[test]
fn decode_extended_identifier_rejected() {
    let mut session = Chademo::new(16);
    let before = session.clone();
    // A 29-bit identifier, larger than any standard one.
    let frame = ChademoCanFrame::new_extended(
        0x1234567,
        [0x02, 0x9A, 0x01, 0x0E, 0x00, 0xC1, 0x56, 0x00].as_slice(),
    )
    .unwrap();
    assert_eq!(session.decode(frame), Err(ChademoError::DecodeBadIdExt));
    assert_eq!(session, before);

    // Even an extended frame whose raw value matches an inbound identifier
    // is rejected.
    let frame = ChademoCanFrame::new_extended(
        0x102,
        [0x02, 0x9A, 0x01, 0x0E, 0x00, 0xC1, 0x56, 0x00].as_slice(),
    )
    .unwrap();
    assert_eq!(session.decode(frame), Err(ChademoError::DecodeBadIdExt));
    assert_eq!(session, before);
}

#[test]
fn vehicle_status_scenarios() {
    let mut session = Chademo::new(16);
    // Status byte 0xC1: contactors reported closed, charging enabled.
    let frame = ChademoCanFrame::new(
        0x102,
        [0x02, 0x9A, 0x01, 0x00, 0x00, 0xC1, 0x56, 0x00].as_slice(),
    )
    .unwrap();
    assert_eq!(session.decode(frame), Ok(()));
    assert!(!session.status_vehicle_contactors());
    assert!(session.status_vehicle_ok());
    assert!(session.x102.contactors_closed());
    assert!(!session.can_close_contactors());
    assert!(session.can_discharge());
    assert!(session.status_vehicle_charging());
    assert!(!session.fault());
    assert_eq!(session.target_voltage(), &410);
    assert_eq!(session.requested_charging_amps(), 0);

    // Status byte 0xC9: every closure veto clear, so closure is permitted.
    let frame = ChademoCanFrame::new(
        0x102,
        [0x02, 0x9A, 0x01, 0x00, 0x00, 0xC9, 0x56, 0x00].as_slice(),
    )
    .unwrap();
    assert_eq!(session.decode(frame), Ok(()));
    assert!(session.can_close_contactors());

    // Same byte but a zero target voltage still forbids closure.
    let frame = ChademoCanFrame::new(
        0x102,
        [0x02, 0x00, 0x00, 0x00, 0x00, 0xC9, 0x56, 0x00].as_slice(),
    )
    .unwrap();
    assert_eq!(session.decode(frame), Ok(()));
    assert!(!session.can_close_contactors());
}

#[test]
fn station_status_scenario() {
    let frame = ChademoCanFrame::new(
        0x109,
        [0x02, 0x00, 0x00, 0x00, 0x01, 0x20, 0x00, 0x00].as_slice(),
    )
    .unwrap();
    let x109 = X109::from_can(&frame).unwrap();
    assert!(!x109.status.status_vehicle_connector_lock);
    assert!(x109.status.status_charger_stop_control);

    let frame = ChademoCanFrame::new(
        0x109,
        [0x02, 0x00, 0x00, 0x00, 0x01, 0x05, 0x00, 0x00].as_slice(),
    )
    .unwrap();
    let x109 = X109::from_can(&frame).unwrap();
    assert!(!x109.status.status_charger_stop_control);
    assert!(x109.status.status_station);
}

#[test]
fn new_session_seeds_safe_defaults() {
    let session = Chademo::new(32);
    // Vehicle records zeroed.
    assert_eq!(session.soc(), &0);
    assert_eq!(session.target_voltage(), &0);
    assert!(!session.fault());
    assert!(!session.can_close_contactors());
    // Station records seeded: stop-control asserted, zero output, the
    // configured ceiling in both capability records.
    assert!(session.x109_status().status_charger_stop_control);
    assert!(!session.x109_status().status_station);
    assert_eq!(session.output_volts(), &0);
    assert_eq!(session.x108.available_output_current, 32);
    assert_eq!(session.x108.avaible_output_voltage, 500);
    assert_eq!(session.x108.welding_detection, 1);
    assert_eq!(session.x108.threshold_voltage, 435);
    assert_eq!(session.x208.get_discharge_current(), 0);
    assert_eq!(session.x208.get_input_voltage(), 500);
    assert_eq!(session.x208.get_input_current(), 32);
    assert_eq!(session.x208.get_lower_threshold_voltage(), 250);
    assert_eq!(session.x109.remaining_charging_time_10s_bit, 255);
    assert_eq!(session.x109.remaining_charging_time_1min_bit, 255);
}

#[test]
fn tx_frames_reflect_commanded_state() {
    let session = Chademo::new(16);
    let frames = session.tx_frames();
    let f108 = frames[0].as_ref().unwrap();
    assert_eq!(f108.id(), 0x108);
    assert!(!f108.is_extended());
    // 500 == 0x01F4, 435 == 0x01B3.
    assert_eq!(
        f108.data().as_slice(),
        [0x01, 0xF4, 0x01, 16, 0xB3, 0x01, 0x00, 0x00].as_slice()
    );
    let f109 = frames[1].as_ref().unwrap();
    assert_eq!(f109.id(), 0x109);
    // Stop-control bit (109.5.5) set, discharge compatible, sentinel times.
    assert_eq!(
        f109.data().as_slice(),
        [0x02, 0x00, 0x00, 0x00, 0x01, 0x20, 0xFF, 0xFF].as_slice()
    );
    let f208 = frames[2].as_ref().unwrap();
    assert_eq!(f208.id(), 0x208);
    // Both current fields carried as 255 - value; 250 == 0x00FA.
    assert_eq!(
        f208.data().as_slice(),
        [0xFF, 0xF4, 0x01, 0xFF - 16, 0x00, 0x00, 0xFA, 0x00].as_slice()
    );
    let f209 = frames[3].as_ref().unwrap();
    assert_eq!(f209.id(), 0x209);
    assert_eq!(
        f209.data().as_slice(),
        [0x02, 0x00, 0x00, 0x00, 0x00, 0x00, 0x00, 0x00].as_slice()
    );
}

#[test]
fn mutators_touch_only_their_bits() {
    let mut session = Chademo::new(16);

    session.charge_start();
    assert!(!session.x109_status().status_charger_stop_control);
    assert!(session.x109_status().status_station);
    assert_eq!(session.x109.remaining_charging_time_10s_bit, 255);
    assert_eq!(session.x109.remaining_charging_time_1min_bit, 60);

    session.plug_lock(true);
    assert!(session.x109_status().status_vehicle_connector_lock);
    session.plug_lock(false);
    assert!(!session.x109_status().status_vehicle_connector_lock);

    session.request_stop_charge();
    assert!(session.x109_status().status_charger_stop_control);

    session.charging_stop_control_set();
    assert!(!session.x109_status().status_charger_stop_control);
    session.charging_stop_control_release();
    assert!(session.x109_status().status_charger_stop_control);

    session.x109.output_voltage = 400;
    session.x109.output_current = 20;
    session.x109.status.fault_station_malfunction = true;
    session.charge_stop();
    assert_eq!(session.output_volts(), &0);
    assert_eq!(session.x109.output_current, 0);
    assert_eq!(session.x109.remaining_charging_time_10s_bit, 0);
    assert_eq!(session.x109.remaining_charging_time_1min_bit, 0);
    assert!(!session.x109_status().fault_station_malfunction);
    assert!(!session.x109_status().fault_battery_incompatibility);
    assert!(!session.x109_status().fault_charging_system_malfunction);
    // Stop-control is left as it was.
    assert!(session.x109_status().status_charger_stop_control);
}

#[test]
fn dynamic_limits_split_by_sign() {
    let mut session = Chademo::new(16);
    // Non-negative: commanded charge current (0x109 output current).
    session.update_dynamic_charge_limits(42);
    assert_eq!(session.x109.output_current, 42);
    assert_eq!(session.x208.get_input_current(), 16);
    // Negative: commanded discharge limit (0x208 input current), by
    // absolute value.
    session.update_dynamic_charge_limits(-30);
    assert_eq!(session.x208.get_input_current(), 30);
    assert_eq!(session.x109.output_current, 42);
    // Magnitudes beyond the wire byte are clamped.
    session.update_dynamic_charge_limits(300);
    assert_eq!(session.x109.output_current, 255);
    session.update_dynamic_charge_limits(-300);
    assert_eq!(session.x208.get_input_current(), 255);
    session.update_dynamic_charge_limits(0);
    assert_eq!(session.x109.output_current, 0);
}

#[test]
fn frame_constructors_enforce_ranges() {
    // Standard identifiers are 11-bit.
    assert!(ChademoCanFrame::new(0x7FF, [0u8; 8].as_slice()).is_some());
    assert!(ChademoCanFrame::new(0x800, [0u8; 8].as_slice()).is_none());
    // Extended identifiers are 29-bit.
    assert!(ChademoCanFrame::new_extended(0x1FFF_FFFF, [0u8; 8].as_slice()).is_some());
    assert!(ChademoCanFrame::new_extended(0x2000_0000, [0u8; 8].as_slice()).is_none());
    // Payloads hold at most 8 bytes.
    assert!(ChademoCanFrame::new(0x102, [0u8; 9].as_slice()).is_none());
    assert!(Data::new([0u8; 9].as_slice()).is_none());
    let d = Data::new([1u8, 2, 3].as_slice()).unwrap();
    assert_eq!(d.len(), 3);
    assert_eq!(d.as_vec().as_slice(), [1u8, 2, 3].as_slice());
    // Remote frames are not supported.
    assert!(ChademoCanFrame::new_remote(0x102, 8).is_none());
    let f = ChademoCanFrame::new(0x102, [0u8; 8].as_slice()).unwrap();
    assert!(!f.is_remote_frame());
    assert_eq!(f.dlc(), 8);
}
