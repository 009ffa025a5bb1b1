use tokio::sync::mpsc;
use udpreceiver::bridge::{Bridge, ACK_LEN, CHANNEL_CAPACITY};
use udpreceiver::telemetry::TelemetryData;

fn record(uid: u64, gear: u8) -> TelemetryData {
    TelemetryData { packet_uid: uid, vehicle_gear_index: gear, ..TelemetryData::default() }
}

#[test]
fn bridge_constants() {
    assert_eq!(CHANNEL_CAPACITY, 10);
    assert_eq!(ACK_LEN, 5);
}

#[test]
fn a_new_bridge_waits_and_holds_the_zero_record() {
    let bridge = Bridge::new();
    assert_eq!(bridge, Bridge::AwaitingFirstRecord);
    assert_eq!(bridge.held_record(), TelemetryData::default());
}

#[test]
fn the_zero_record_is_zero_in_every_field() {
    let zero = Bridge::new().held_record();
    assert_eq!(udpreceiver::decoder::encode_packet(&zero), vec![0u8; 226]);
}

#[test]
fn a_waiting_bridge_reports_gear_zero() {
    let mut bridge = Bridge::new();
    assert_eq!(bridge.step(None), vec![0x00, 0x01, 0x00]);
    assert_eq!(bridge, Bridge::AwaitingFirstRecord);
}

#[test]
fn the_first_record_starts_the_relay() {
    let mut bridge = Bridge::new();
    let first = record(1, 2);
    assert_eq!(bridge.step(Some(first)), vec![0x00, 0x01, 0x02]);
    assert_eq!(bridge, Bridge::Relaying(first));
    assert_eq!(bridge.held_record(), first);
}

#[test]
fn the_held_record_is_sent_again_when_nothing_arrives() {
    let mut bridge = Bridge::new();
    let first = record(1, 4);
    bridge.step(Some(first));
    for _ in 0..3 {
        assert_eq!(bridge.step(None), vec![0x00, 0x01, 0x04]);
        assert_eq!(bridge, Bridge::Relaying(first));
    }
}

#[test]
fn a_newer_record_replaces_the_held_one() {
    let mut bridge = Bridge::new();
    bridge.step(Some(record(1, 1)));
    assert_eq!(bridge.step(Some(record(2, 5))), vec![0x00, 0x01, 0x05]);
    assert_eq!(bridge.held_record(), record(2, 5));
    assert_eq!(bridge.step(None), vec![0x00, 0x01, 0x05]);
}

#[test]
fn a_relaying_bridge_holding_a_zero_record_is_not_waiting() {
    let mut bridge = Bridge::new();
    bridge.step(Some(TelemetryData::default()));
    assert_eq!(bridge, Bridge::Relaying(TelemetryData::default()));
    assert_ne!(bridge, Bridge::AwaitingFirstRecord);
}

#[test]
fn one_poll_takes_the_oldest_of_three_records() {
    let (tx, mut rx) = mpsc::channel::<TelemetryData>(CHANNEL_CAPACITY);
    let (r1, r2, r3) = (record(1, 1), record(2, 2), record(3, 3));
    tx.try_send(r1).unwrap();
    tx.try_send(r2).unwrap();
    tx.try_send(r3).unwrap();
    let mut bridge = Bridge::new();
    let report = bridge.poll(&mut rx);
    assert_eq!(bridge, Bridge::Relaying(r1));
    assert_eq!(report, vec![0x00, 0x01, 0x01]);
}

#[test]
fn a_record_polled_past_does_not_come_back() {
    let (tx, mut rx) = mpsc::channel::<TelemetryData>(CHANNEL_CAPACITY);
    let (r1, r2, r3) = (record(1, 1), record(2, 2), record(3, 3));
    tx.try_send(r1).unwrap();
    tx.try_send(r2).unwrap();
    tx.try_send(r3).unwrap();
    let mut bridge = Bridge::new();
    bridge.poll(&mut rx);
    assert_eq!(bridge.poll(&mut rx), vec![0x00, 0x01, 0x02]);
    assert_eq!(bridge.held_record(), r2);
    assert_eq!(bridge.poll(&mut rx), vec![0x00, 0x01, 0x03]);
    assert_eq!(bridge.held_record(), r3);
    for _ in 0..5 {
        assert_eq!(bridge.poll(&mut rx), vec![0x00, 0x01, 0x03]);
        assert_eq!(bridge, Bridge::Relaying(r3));
    }
}

#[test]
fn polling_an_empty_channel_changes_nothing() {
    let (tx, mut rx) = mpsc::channel::<TelemetryData>(CHANNEL_CAPACITY);
    let mut bridge = Bridge::new();
    assert_eq!(bridge.poll(&mut rx), vec![0x00, 0x01, 0x00]);
    assert_eq!(bridge, Bridge::AwaitingFirstRecord);
    tx.try_send(record(9, 6)).unwrap();
    assert_eq!(bridge.poll(&mut rx), vec![0x00, 0x01, 0x06]);
    assert_eq!(bridge.poll(&mut rx), vec![0x00, 0x01, 0x06]);
    assert_eq!(bridge, Bridge::Relaying(record(9, 6)));
}

#[test]
fn polling_a_closed_channel_changes_nothing() {
    let (tx, mut rx) = mpsc::channel::<TelemetryData>(CHANNEL_CAPACITY);
    tx.try_send(record(1, 2)).unwrap();
    drop(tx);
    let mut bridge = Bridge::new();
    assert_eq!(bridge.poll(&mut rx), vec![0x00, 0x01, 0x02]);
    assert_eq!(bridge.poll(&mut rx), vec![0x00, 0x01, 0x02]);
    assert_eq!(bridge, Bridge::Relaying(record(1, 2)));
}

#[test]
fn a_full_channel_does_not_hold_up_the_bridge() {
    let (tx, mut rx) = mpsc::channel::<TelemetryData>(CHANNEL_CAPACITY);
    for uid in 0..10 {
        tx.try_send(record(uid, uid as u8)).unwrap();
    }
    assert!(tx.try_send(record(10, 10)).is_err());
    let mut bridge = Bridge::new();
    for uid in 0..10 {
        assert_eq!(bridge.poll(&mut rx), vec![0x00, 0x01, uid as u8]);
        assert_eq!(bridge.held_record(), record(uid, uid as u8));
    }
    assert_eq!(bridge.poll(&mut rx), vec![0x00, 0x01, 0x09]);
}
