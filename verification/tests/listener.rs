use udpreceiver::decoder::{encode_packet, parse_packet};
use udpreceiver::listener::{on_datagram, ListenerAction, DATAGRAM_CAPACITY, LISTEN_PORT};
use udpreceiver::telemetry::TelemetryData;

#[test]
fn listener_constants() {
    assert_eq!(DATAGRAM_CAPACITY, 1024);
    assert_eq!(LISTEN_PORT, 20782);
}

#[test]
fn a_whole_record_is_forwarded() {
    let record = TelemetryData { vehicle_gear_index: 3, packet_uid: 77, ..TelemetryData::default() };
    let datagram = encode_packet(&record);
    assert_eq!(on_datagram(&datagram), ListenerAction::Forward(record));
}

#[test]
fn a_ten_byte_datagram_is_discarded() {
    assert_eq!(on_datagram(&[0x55; 10]), ListenerAction::Discard);
}

#[test]
fn an_empty_datagram_is_discarded() {
    assert_eq!(on_datagram(&[]), ListenerAction::Discard);
}

#[test]
fn a_datagram_one_byte_short_is_discarded() {
    assert_eq!(on_datagram(&[0u8; 225]), ListenerAction::Discard);
    assert_eq!(on_datagram(&[0u8; 226]), ListenerAction::Forward(TelemetryData::default()));
}

#[test]
fn a_full_receive_buffer_is_forwarded_as_its_first_record() {
    let buffer = [7u8; 1024];
    let expected = parse_packet(&buffer[..226]).unwrap();
    assert_eq!(on_datagram(&buffer), ListenerAction::Forward(expected));
}
