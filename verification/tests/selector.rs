use udpreceiver::selector::{
    scan_candidates, select_default_device, select_device, DeviceDescriptor, ScanPosition,
    ADAFRUIT_VENDOR_ID, ESPRESSIF_VENDOR_ID, GENERIC_DESKTOP_USAGE, RASPBERRY_PI_VENDOR_ID,
    TINYUSB_VENDOR_ID, USB_VID,
};

fn device(vendor_id: u16, product_id: u16, usage: u16) -> DeviceDescriptor {
    DeviceDescriptor { vendor_id, product_id, usage }
}

fn place(vendor: usize, device: usize) -> ScanPosition {
    ScanPosition { vendor, device }
}

#[test]
fn vendor_identifiers_and_their_order() {
    assert_eq!(TINYUSB_VENDOR_ID, 0xcafe);
    assert_eq!(ADAFRUIT_VENDOR_ID, 0x239a);
    assert_eq!(RASPBERRY_PI_VENDOR_ID, 0x2e8a);
    assert_eq!(ESPRESSIF_VENDOR_ID, 0x303a);
    assert_eq!(USB_VID, [0xcafe, 0x239a, 0x2e8a, 0x303a]);
    assert_eq!(GENERIC_DESKTOP_USAGE, 1);
}

#[test]
fn the_one_espressif_device_with_the_usage_is_selected() {
    let devices = [
        device(0x046d, 0xc52b, 1),
        device(0x303a, 0x4001, 6),
        device(0x1234, 0x0001, 1),
        device(0x303a, 0x4002, 1),
        device(0xcafe, 0x4003, 2),
    ];
    assert_eq!(select_device(&devices, &USB_VID, GENERIC_DESKTOP_USAGE), Some(3));
    assert_eq!(select_default_device(&devices), Some(3));
    assert_eq!(scan_candidates(&devices, &USB_VID, GENERIC_DESKTOP_USAGE), vec![place(3, 3)]);
}

#[test]
fn vendor_priority_beats_enumeration_order() {
    let devices = [
        device(0x303a, 1, 1),
        device(0x2e8a, 2, 1),
        device(0x239a, 3, 1),
        device(0xcafe, 4, 1),
    ];
    assert_eq!(select_default_device(&devices), Some(3));
    assert_eq!(
        scan_candidates(&devices, &USB_VID, 1),
        vec![place(0, 3), place(1, 2), place(2, 1), place(3, 0)]
    );
    assert_eq!(select_device(&devices[..3], &USB_VID, 1), Some(2));
    assert_eq!(select_device(&devices[..2], &USB_VID, 1), Some(1));
    assert_eq!(select_device(&devices[..1], &USB_VID, 1), Some(0));
}

#[test]
fn enumeration_order_decides_within_a_vendor() {
    let devices = [
        device(0x239a, 10, 2),
        device(0x239a, 11, 1),
        device(0x239a, 12, 1),
    ];
    assert_eq!(select_default_device(&devices), Some(1));
    assert_eq!(scan_candidates(&devices, &USB_VID, 1), vec![place(1, 1), place(1, 2)]);
}

#[test]
fn a_device_with_another_usage_does_not_qualify() {
    let devices = [device(0xcafe, 1, 0), device(0xcafe, 2, 2), device(0x303a, 3, 0x0100)];
    assert_eq!(select_default_device(&devices), None);
    assert_eq!(scan_candidates(&devices, &USB_VID, 1), vec![]);
    assert_eq!(select_device(&devices, &USB_VID, 2), Some(1));
}

#[test]
fn a_device_of_another_vendor_does_not_qualify() {
    let devices = [device(0x046d, 1, 1), device(0xcaff, 2, 1)];
    assert_eq!(select_default_device(&devices), None);
    assert_eq!(select_device(&devices, &[0x046d], 1), Some(0));
}

#[test]
fn nothing_to_scan_gives_nothing() {
    assert_eq!(select_default_device(&[]), None);
    assert_eq!(select_device(&[device(0xcafe, 1, 1)], &[], 1), None);
    assert_eq!(scan_candidates(&[], &USB_VID, 1), vec![]);
    assert_eq!(scan_candidates(&[device(0xcafe, 1, 1)], &[], 1), vec![]);
}

#[test]
fn the_caller_sets_the_order_of_vendors() {
    let devices = [device(0xcafe, 1, 1), device(0x303a, 2, 1)];
    assert_eq!(select_device(&devices, &[0xcafe, 0x303a], 1), Some(0));
    assert_eq!(select_device(&devices, &[0x303a, 0xcafe], 1), Some(1));
}

#[test]
fn a_repeated_vendor_is_scanned_again() {
    let devices = [device(0xcafe, 1, 1), device(0x303a, 2, 1)];
    assert_eq!(
        scan_candidates(&devices, &[0x303a, 0xcafe, 0x303a], 1),
        vec![place(0, 1), place(1, 0), place(2, 1)]
    );
}

#[test]
fn the_selection_heads_the_scan() {
    let devices = [
        device(0x2e8a, 1, 1),
        device(0x0001, 2, 1),
        device(0x239a, 3, 1),
        device(0x2e8a, 4, 1),
        device(0x239a, 5, 3),
    ];
    let places = scan_candidates(&devices, &USB_VID, 1);
    assert_eq!(places, vec![place(1, 2), place(2, 0), place(2, 3)]);
    assert_eq!(select_default_device(&devices), Some(places[0].device));
}

#[test]
fn selection_is_repeatable() {
    let devices = [device(0x303a, 1, 1), device(0x303a, 2, 1)];
    assert_eq!(select_default_device(&devices), select_default_device(&devices));
    assert_eq!(select_default_device(&devices), Some(0));
}
