use chademo::error::ChademoError;
use chademo::frames::{X102Faults, X102Status, X109Status, X102, X109, X208, X209};
use chademo::interface::ChademoCanFrame;

#[test]
fn x109_test() {
    let frame = ChademoCanFrame::new(
        0x109,
        [0x02, 0x00, 0x00, 0x00, 0x01, 0x20, 0x00, 0x00].as_slice(),
    )
    .unwrap();
    let x109 = X109::from_can(&frame).unwrap();
    assert!(!x109.status.status_vehicle_connector_lock);
    assert!(x109.status.status_charger_stop_control);

    let frame = ChademoCanFrame::new(
        0x109,
        [0x02, 0x80, 0x01, 0x00, 0x01, 0x24, 0x00, 0x00].as_slice(),
    )
    .unwrap();
    let x109 = X109::from_can(&frame).unwrap();
    assert!(x109.status.status_charger_stop_control);

    let frame = ChademoCanFrame::new(
        0x109,
        [0x02, 0x80, 0x01, 0x00, 0x01, 0x05, 0x00, 0x00].as_slice(),
    )
    .unwrap();
    let x109 = X109::from_can(&frame).unwrap();
    assert!(!x109.status.status_charger_stop_control);
    assert!(x109.status.status_station);
}

#[test]
fn x102_test() {
    let frame = ChademoCanFrame::new(
        0x102,
        [0x02, 0x9A, 0x01, 0x00, 0x00, 0xC8, 0x56, 0x00].as_slice(),
    )
    .unwrap();
    let x102 = X102::from_can(&frame).unwrap();
    println!("{:?}", x102.status);
    assert!(!x102.contactors_closed());

    let frame = ChademoCanFrame::new(
        0x102,
        [0x02, 0x9A, 0x01, 0x00, 0x00, 0xC9, 0x56, 0x00].as_slice(),
    )
    .unwrap();
    let x102 = X102::from_can(&frame).unwrap();
    assert!(x102.can_close_contactors());
    println!("{:?}", x102.status);

    let frame = ChademoCanFrame::new(
        0x102,
        [0x02, 0x9A, 0x01, 0x00, 0x00, 0xC1, 0x56, 0x00].as_slice(),
    )
    .unwrap();
    let x102 = X102::from_can(&frame).unwrap();
    assert!(x102.contactors_closed());
}

#[test]
fn x102_scalar_fields_exact() {
    // Target voltage spans bytes 1..=2 little-endian: 0x019A == 410.
    let frame = ChademoCanFrame::new(
        0x102,
        [0x02, 0x9A, 0x01, 0x0E, 0x00, 0xC1, 0x56, 0x00].as_slice(),
    )
    .unwrap();
    let x102 = X102::from_can(&frame).unwrap();
    assert_eq!(x102.control_protocol_number_ev, 2);
    assert_eq!(x102.target_battery_voltage, 410);
    assert_eq!(x102.charging_current_request, 0x0E);
    assert_eq!(x102.state_of_charge, 86);
}

#[test]
fn x102_status_byte_round_trip_defined_bits() {
    // Every byte restricted to the defined vehicle status bits (0x9F mask)
    // survives the decode/encode round trip.
    for b in 0u16..=255 {
        let b = b as u8;
        if b & 0x9F == b {
            assert_eq!(X102Status::from_byte(b).to_byte(), b);
        }
    }
    // An undefined bit is dropped by the round trip.
    assert_eq!(X102Status::from_byte(0x40).to_byte(), 0x00);
    assert_eq!(X102Status::from_byte(0xC9).to_byte(), 0x89);
}

#[test]
fn x109_status_byte_round_trip_defined_bits() {
    for b in 0u16..=255 {
        let b = b as u8;
        if b & 0x3F == b {
            assert_eq!(X109Status::from_byte(b).to_byte(), b);
        }
    }
    assert_eq!(X109Status::from_byte(0x80).to_byte(), 0x00);
}

#[test]
fn x102_status_bits_positions() {
    let s = X102Status::from_byte(0xC9);
    assert!(s.status_discharge_compatible); // bit 7
    assert!(!s.status_normal_stop_request); // bit 4
    assert!(s.status_vehicle); // bit 3
    assert!(!s.status_charging_system); // bit 2
    assert!(!s.status_vehicle_shifter_position); // bit 1
    assert!(s.status_vehicle_charging); // bit 0
}

#[test]
fn x102_fault_or_of_each_bit() {
    // All five fault bits clear: no fault.
    assert!(!X102Faults::from_byte(0x00).any());
    // Each single defined fault bit alone raises the fault predicate.
    for pos in 0u8..=4 {
        let f = X102Faults::from_byte(1 << pos);
        assert!(f.any());
    }
    // A bit outside the five defined positions is not a fault.
    assert!(!X102Faults::from_byte(0xE0).any());
    // Decoded through the whole record: fault byte 0x10 (battery
    // overvoltage) sets the aggregate fault predicate.
    let frame = ChademoCanFrame::new(
        0x102,
        [0x02, 0x9A, 0x01, 0x00, 0x10, 0xC1, 0x56, 0x00].as_slice(),
    )
    .unwrap();
    let x102 = X102::from_can(&frame).unwrap();
    assert!(x102.fault());
    assert!(x102.faults.fault_battery_overvoltage);
    assert!(!x102.stop());
}

#[test]
fn x109_record_round_trip() {
    let mut x109 = X109::new(3, false);
    x109.output_voltage = 398;
    x109.output_current = 25;
    x109.status.status_station = true;
    x109.remaining_charging_time_10s_bit = 12;
    x109.remaining_charging_time_1min_bit = 34;
    let frame = x109.to_can().unwrap();
    assert_eq!(frame.id(), 0x109);
    assert!(!frame.is_extended());
    let back = X109::from_can(&frame).unwrap();
    assert_eq!(back, x109);
}

#[test]
fn x209_record_round_trip() {
    let x209 = X209::new(2, 0x1234);
    let frame = x209.to_can().unwrap();
    assert_eq!(frame.id(), 0x209);
    assert_eq!(frame.data().as_slice(), [0x02, 0x34, 0x12, 0, 0, 0, 0, 0].as_slice());
    let back = X209::from_can(&frame).unwrap();
    assert_eq!(back, x209);
}

#[test]
fn record_decoders_reject_wrong_identifier_and_length() {
    let frame = ChademoCanFrame::new(
        0x105,
        [0x02, 0x9A, 0x01, 0x00, 0x00, 0xC1, 0x56, 0x00].as_slice(),
    )
    .unwrap();
    assert_eq!(X102::from_can(&frame), Err(ChademoError::DecodeBadId(0x105)));

    // Right identifier, payload shorter than the fixed 8 bytes.
    let short = ChademoCanFrame::new(0x102, [0x02, 0x9A, 0x01].as_slice()).unwrap();
    assert_eq!(X102::from_can(&short), Err(ChademoError::DecodeBadId(0x102)));

    // Extended identifier space is always rejected.
    let ext = ChademoCanFrame::new_extended(
        0x102,
        [0x02, 0x9A, 0x01, 0x00, 0x00, 0xC1, 0x56, 0x00].as_slice(),
    )
    .unwrap();
    assert_eq!(X102::from_can(&ext), Err(ChademoError::DecodeBadIdExt));

    let x208 = X208::from_can(&frame);
    assert_eq!(x208, Err(ChademoError::DecodeBadId(0x105)));
}

#[test]
fn get_bit_reads_single_positions() {
    assert!(chademo::get_bit(0xC1, 0));
    assert!(!chademo::get_bit(0xC1, 1));
    assert!(chademo::get_bit(0xC1, 6));
    assert!(chademo::get_bit(0xC1, 7));
    assert!(!chademo::get_bit(0x00, 5));
}
