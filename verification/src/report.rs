//! Output reports for the peripheral.
//!
//! A report starts with the report identifier, then names its command, then
//! carries what that command needs. One command exists so far: it shows the
//! current gear and carries the gear index as its single payload byte.

use vstd::prelude::*;
use crate::telemetry::TelemetryData;

verus! {

/// The report identifier that opens every output report.
pub const REPORT_ID: u8 = 0x00;

/// The command that shows the current gear.
pub const GEAR_COMMAND: u8 = 1;

/// The longest report the device takes.
pub const MAX_REPORT_LEN: usize = 64;

/// What a command carries behind its two leading bytes: the gear index for
/// the gear command, nothing for any other.
pub open spec fn report_payload(input: TelemetryData, command: u8) -> Seq<u8> {
    if command == GEAR_COMMAND {
        seq![input.vehicle_gear_index]
    } else {
        Seq::empty()
    }
}

/// The bytes of the report for `command`, made from the record `input`.
pub open spec fn report_bytes(input: TelemetryData, command: u8) -> Seq<u8> {
    seq![REPORT_ID, command] + report_payload(input, command)
}

/// Builds the output report for `command` from a record.
pub fn create_hid_packet(input: &TelemetryData, command: u8) -> (output: Vec<u8>)
    ensures
        output@ == report_bytes(*input, command),
        output@.len() <= MAX_REPORT_LEN,
{
    let mut output: Vec<u8> = Vec::new();
    output.push(REPORT_ID);
    output.push(command);
    if command == GEAR_COMMAND {
        output.push(input.vehicle_gear_index);
    }
    output
}

} // verus!
