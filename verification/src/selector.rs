//! Choice of the peripheral to drive.
//!
//! The attached devices are scanned once per candidate vendor identifier, the
//! identifiers taken in their order of priority and the devices in the order
//! of their enumeration. A device is a candidate when it carries the vendor
//! identifier of the scan and the wanted interface usage.

use vstd::prelude::*;

verus! {

/// The vendor identifier of TinyUSB.
pub const TINYUSB_VENDOR_ID: u16 = 0xcafe;

/// The vendor identifier of Adafruit.
pub const ADAFRUIT_VENDOR_ID: u16 = 0x239a;

/// The vendor identifier of Raspberry Pi.
pub const RASPBERRY_PI_VENDOR_ID: u16 = 0x2e8a;

/// The vendor identifier of Espressif.
pub const ESPRESSIF_VENDOR_ID: u16 = 0x303a;

/// The candidate vendor identifiers, highest priority first.
pub const USB_VID: [u16; 4] = [
    TINYUSB_VENDOR_ID,
    ADAFRUIT_VENDOR_ID,
    RASPBERRY_PI_VENDOR_ID,
    ESPRESSIF_VENDOR_ID,
];

/// The interface usage of a generic desktop control.
pub const GENERIC_DESKTOP_USAGE: u16 = 1;

/// What the choice reads of an attached device.
#[derive(Clone, Copy, Debug, PartialEq, Eq, Structural)]
pub struct DeviceDescriptor {
    pub vendor_id: u16,
    pub product_id: u16,
    pub usage: u16,
}

/// One place in the scan: a candidate vendor identifier and a device, each by
/// its index.
#[derive(Clone, Copy, Debug, PartialEq, Eq, Structural)]
pub struct ScanPosition {
    pub vendor: usize,
    pub device: usize,
}

/// The device carries the vendor identifier and the usage.
pub open spec fn qualifies(device: DeviceDescriptor, vendor_id: u16, usage: u16) -> bool {
    device.vendor_id == vendor_id && device.usage == usage
}

/// Device `d` is a candidate in the scan for the vendor identifier at `v`.
pub open spec fn is_candidate(
    devices: Seq<DeviceDescriptor>,
    vendor_ids: Seq<u16>,
    usage: u16,
    v: int,
    d: int,
) -> bool {
    &&& 0 <= v < vendor_ids.len()
    &&& 0 <= d < devices.len()
    &&& qualifies(devices[d], vendor_ids[v], usage)
}

/// The scan comes to place `(v1, d1)` before it comes to `(v2, d2)`.
pub open spec fn scanned_before(v1: int, d1: int, v2: int, d2: int) -> bool {
    v1 < v2 || (v1 == v2 && d1 < d2)
}

/// Device `d` is the candidate that the scan comes to first, and the scan
/// comes to it under the vendor identifier at `v`.
pub open spec fn is_first_candidate(
    devices: Seq<DeviceDescriptor>,
    vendor_ids: Seq<u16>,
    usage: u16,
    v: int,
    d: int,
) -> bool {
    &&& is_candidate(devices, vendor_ids, usage, v, d)
    &&& forall|v2: int, d2: int| #[trigger]
        is_candidate(devices, vendor_ids, usage, v2, d2) ==> !scanned_before(v2, d2, v, d)
}

/// Device `d` is the candidate that the scan comes to first.
pub open spec fn is_first_device(
    devices: Seq<DeviceDescriptor>,
    vendor_ids: Seq<u16>,
    usage: u16,
    d: int,
) -> bool {
    exists|v: int| is_first_candidate(devices, vendor_ids, usage, v, d)
}

/// `found` is the outcome of the choice: the device of the candidate that the
/// scan comes to first, or nothing when the scan meets no candidate.
pub open spec fn is_selection(
    devices: Seq<DeviceDescriptor>,
    vendor_ids: Seq<u16>,
    usage: u16,
    found: Option<usize>,
) -> bool {
    match found {
        Some(d) => is_first_device(devices, vendor_ids, usage, d as int),
        None => forall|v: int, d: int| !is_candidate(devices, vendor_ids, usage, v, d),
    }
}

/// Chooses the device to drive: the first candidate of the scan, by its index
/// in `devices`. `None` says that no device qualifies.
pub fn select_device(
    devices: &[DeviceDescriptor],
    vendor_ids: &[u16],
    usage: u16,
) -> (found: Option<usize>)
    ensures
        is_selection(devices@, vendor_ids@, usage, found),
{
    let mut v: usize = 0;
    while v < vendor_ids.len()
        invariant
            v <= vendor_ids.len(),
            forall|v2: int, d2: int|
                0 <= v2 < v ==> !#[trigger] is_candidate(devices@, vendor_ids@, usage, v2, d2),
        decreases vendor_ids.len() - v,
    {
        let mut d: usize = 0;
        while d < devices.len()
            invariant
                v < vendor_ids.len(),
                d <= devices.len(),
                forall|v2: int, d2: int|
                    0 <= v2 < v ==> !#[trigger] is_candidate(devices@, vendor_ids@, usage, v2, d2),
                forall|d2: int|
                    0 <= d2 < d ==> !#[trigger] is_candidate(
                        devices@,
                        vendor_ids@,
                        usage,
                        v as int,
                        d2,
                    ),
            decreases devices.len() - d,
        {
            if devices[d].vendor_id == vendor_ids[v] && devices[d].usage == usage {
                assert(is_first_candidate(devices@, vendor_ids@, usage, v as int, d as int));
                return Some(d);
            }
            d += 1;
        }
        v += 1;
    }
    None
}

/// Chooses the device to drive among `devices` by the standing rule: the
/// vendor identifiers of `USB_VID` in their order, and the usage of a generic
/// desktop control.
pub fn select_default_device(devices: &[DeviceDescriptor]) -> (found: Option<usize>)
    ensures
        is_selection(devices@, USB_VID@, GENERIC_DESKTOP_USAGE, found),
{
    let vendor_ids = USB_VID;
    select_device(devices, vendor_ids.as_slice(), GENERIC_DESKTOP_USAGE)
}

/// The list names the place `(v, d)`.
pub open spec fn names_place(places: Seq<ScanPosition>, v: int, d: int) -> bool {
    exists|i: int|
        0 <= i < places.len() && (#[trigger] places[i]).vendor == v && places[i].device == d
}

/// `places` lists the candidates of the scan: each of them once, nothing
/// else, and in the order in which the scan comes to them.
pub open spec fn is_scan_order(
    devices: Seq<DeviceDescriptor>,
    vendor_ids: Seq<u16>,
    usage: u16,
    places: Seq<ScanPosition>,
) -> bool {
    &&& forall|i: int|
        0 <= i < places.len() ==> is_candidate(
            devices,
            vendor_ids,
            usage,
            (#[trigger] places[i]).vendor as int,
            places[i].device as int,
        )
    &&& forall|v: int, d: int| #[trigger]
        is_candidate(devices, vendor_ids, usage, v, d) ==> names_place(places, v, d)
    &&& forall|i: int, j: int|
        0 <= i < j < places.len() ==> scanned_before(
            (#[trigger] places[i]).vendor as int,
            places[i].device as int,
            (#[trigger] places[j]).vendor as int,
            places[j].device as int,
        )
}

/// Lists every candidate in the order of the scan. The first entry is the
/// device that `select_device` chooses; the others are what to fall back on
/// when that device cannot be opened.
pub fn scan_candidates(
    devices: &[DeviceDescriptor],
    vendor_ids: &[u16],
    usage: u16,
) -> (places: Vec<ScanPosition>)
    ensures
        is_scan_order(devices@, vendor_ids@, usage, places@),
{
    let mut places: Vec<ScanPosition> = Vec::new();
    let mut v: usize = 0;
    while v < vendor_ids.len()
        invariant
            v <= vendor_ids.len(),
            forall|i: int|
                0 <= i < places@.len() ==> (#[trigger] places@[i]).vendor < v && is_candidate(
                    devices@,
                    vendor_ids@,
                    usage,
                    places@[i].vendor as int,
                    places@[i].device as int,
                ),
            forall|v2: int, d2: int|
                v2 < v && #[trigger] is_candidate(devices@, vendor_ids@, usage, v2, d2)
                    ==> names_place(places@, v2, d2),
            forall|i: int, j: int|
                0 <= i < j < places@.len() ==> scanned_before(
                    (#[trigger] places@[i]).vendor as int,
                    places@[i].device as int,
                    (#[trigger] places@[j]).vendor as int,
                    places@[j].device as int,
                ),
        decreases vendor_ids.len() - v,
    {
        let mut d: usize = 0;
        while d < devices.len()
            invariant
                v < vendor_ids.len(),
                d <= devices.len(),
                forall|i: int|
                    0 <= i < places@.len() ==> scanned_before(
                        (#[trigger] places@[i]).vendor as int,
                        places@[i].device as int,
                        v as int,
                        d as int,
                    ) && is_candidate(
                        devices@,
                        vendor_ids@,
                        usage,
                        places@[i].vendor as int,
                        places@[i].device as int,
                    ),
                forall|v2: int, d2: int|
                    scanned_before(v2, d2, v as int, d as int) && #[trigger] is_candidate(
                        devices@,
                        vendor_ids@,
                        usage,
                        v2,
                        d2,
                    ) ==> names_place(places@, v2, d2),
                forall|i: int, j: int|
                    0 <= i < j < places@.len() ==> scanned_before(
                        (#[trigger] places@[i]).vendor as int,
                        places@[i].device as int,
                        (#[trigger] places@[j]).vendor as int,
                        places@[j].device as int,
                    ),
            decreases devices.len() - d,
        {
            if devices[d].vendor_id == vendor_ids[v] && devices[d].usage == usage {
                let ghost before = places@;
                places.push(ScanPosition { vendor: v, device: d });
                proof {
                    assert forall|v2: int, d2: int|
                        scanned_before(v2, d2, v as int, d as int + 1) && #[trigger] is_candidate(
                            devices@,
                            vendor_ids@,
                            usage,
                            v2,
                            d2,
                        ) implies names_place(places@, v2, d2) by {
                        if v2 == v && d2 == d {
                            assert(places@[before.len() as int].device == d);
                        } else {
                            assert(names_place(before, v2, d2));
                            let i = choose|i: int|
                                0 <= i < before.len() && (#[trigger] before[i]).vendor == v2
                                    && before[i].device == d2;
                            assert(places@[i] == before[i]);
                        }
                    }
                }
            }
            d += 1;
        }
        v += 1;
    }
    places
}

/// The choice is determined by the device list, the vendor identifiers and
/// the usage: two outcomes of the same scan are one.
pub proof fn lemma_selection_is_unique(
    devices: Seq<DeviceDescriptor>,
    vendor_ids: Seq<u16>,
    usage: u16,
    one: Option<usize>,
    other: Option<usize>,
)
    requires
        is_selection(devices, vendor_ids, usage, one),
        is_selection(devices, vendor_ids, usage, other),
    ensures
        one == other,
{
    if one is Some && other is Some {
        let d1 = one->0 as int;
        let d2 = other->0 as int;
        let v1 = choose|v: int| is_first_candidate(devices, vendor_ids, usage, v, d1);
        let v2 = choose|v: int| is_first_candidate(devices, vendor_ids, usage, v, d2);
        assert(!scanned_before(v1, d1, v2, d2));
        assert(!scanned_before(v2, d2, v1, d1));
    } else if one is Some {
        let d1 = one->0 as int;
        let v1 = choose|v: int| is_first_candidate(devices, vendor_ids, usage, v, d1);
        assert(is_candidate(devices, vendor_ids, usage, v1, d1));
    } else if other is Some {
        let d2 = other->0 as int;
        let v2 = choose|v: int| is_first_candidate(devices, vendor_ids, usage, v, d2);
        assert(is_candidate(devices, vendor_ids, usage, v2, d2));
    }
}

/// A device that alone qualifies is the one chosen: when device `k` carries
/// the usage and some candidate vendor identifier, and no other device is a
/// candidate, the choice is `k`.
pub proof fn lemma_only_candidate_is_selected(
    devices: Seq<DeviceDescriptor>,
    vendor_ids: Seq<u16>,
    usage: u16,
    k: usize,
    found: Option<usize>,
)
    requires
        exists|v: int| is_candidate(devices, vendor_ids, usage, v, k as int),
        forall|v: int, d: int| is_candidate(devices, vendor_ids, usage, v, d) ==> d == k,
        is_selection(devices, vendor_ids, usage, found),
    ensures
        found == Some(k),
{
    let v = choose|v: int| is_candidate(devices, vendor_ids, usage, v, k as int);
    assert(is_candidate(devices, vendor_ids, usage, v, k as int));
    assert(found is Some);
    let d = found->0 as int;
    let w = choose|w: int| is_first_candidate(devices, vendor_ids, usage, w, d);
    assert(is_candidate(devices, vendor_ids, usage, w, d));
}

/// The chosen device heads the list of candidates, and nothing is chosen
/// exactly when that list is empty.
pub proof fn lemma_selection_heads_scan(
    devices: Seq<DeviceDescriptor>,
    vendor_ids: Seq<u16>,
    usage: u16,
    places: Seq<ScanPosition>,
    found: Option<usize>,
)
    requires
        is_scan_order(devices, vendor_ids, usage, places),
        is_selection(devices, vendor_ids, usage, found),
    ensures
        found is None <==> places.len() == 0,
        found is Some ==> found->0 == places[0].device,
{
    if places.len() > 0 {
        let v0 = places[0].vendor as int;
        let d0 = places[0].device as int;
        assert(is_candidate(devices, vendor_ids, usage, v0, d0));
        assert(found is Some);
        let d = found->0 as int;
        let v = choose|v: int| is_first_candidate(devices, vendor_ids, usage, v, d);
        assert(!scanned_before(v0, d0, v, d));
        assert(names_place(places, v, d));
        let i = choose|i: int|
            0 <= i < places.len() && (#[trigger] places[i]).vendor == v && places[i].device == d;
        if i > 0 {
            assert(scanned_before(
                places[0].vendor as int,
                places[0].device as int,
                places[i].vendor as int,
                places[i].device as int,
            ));
        }
    } else if found is Some {
        let d = found->0 as int;
        let v = choose|v: int| is_first_candidate(devices, vendor_ids, usage, v, d);
        assert(names_place(places, v, d));
    }
}

} // verus!
