use udpreceiver::report::{create_hid_packet, GEAR_COMMAND, MAX_REPORT_LEN, REPORT_ID};
use udpreceiver::telemetry::TelemetryData;

fn record_in_gear(gear: u8) -> TelemetryData {
    TelemetryData { vehicle_gear_index: gear, ..TelemetryData::default() }
}

#[test]
fn gear_report_carries_the_gear_index() {
    assert_eq!(create_hid_packet(&record_in_gear(3), 1), vec![0x00, 0x01, 0x03]);
    assert_eq!(create_hid_packet(&record_in_gear(0), 1), vec![0x00, 0x01, 0x00]);
    assert_eq!(create_hid_packet(&record_in_gear(255), 1), vec![0x00, 0x01, 0xff]);
}

#[test]
fn gear_report_reads_no_other_field() {
    let mut record = record_in_gear(4);
    record.vehicle_gear_index_neutral = 9;
    record.vehicle_gear_index_reverse = 8;
    record.vehicle_gear_maximum = 7;
    record.packet_uid = u64::MAX;
    assert_eq!(create_hid_packet(&record, GEAR_COMMAND), vec![REPORT_ID, GEAR_COMMAND, 4]);
}

#[test]
fn other_commands_carry_no_payload() {
    let record = record_in_gear(5);
    assert_eq!(create_hid_packet(&record, 0), vec![0x00, 0x00]);
    assert_eq!(create_hid_packet(&record, 2), vec![0x00, 0x02]);
    assert_eq!(create_hid_packet(&record, 255), vec![0x00, 0xff]);
}

#[test]
fn report_constants() {
    assert_eq!(REPORT_ID, 0x00);
    assert_eq!(GEAR_COMMAND, 1);
    assert_eq!(MAX_REPORT_LEN, 64);
}

#[test]
fn reports_fit_the_device() {
    let record = record_in_gear(2);
    for command in 0..=255u8 {
        let report = create_hid_packet(&record, command);
        assert!(report.len() <= MAX_REPORT_LEN);
        assert_eq!(report[0], REPORT_ID);
        assert_eq!(report[1], command);
    }
}
