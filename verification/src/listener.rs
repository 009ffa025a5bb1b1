//! What the telemetry listener does with a datagram.
//!
//! The listener takes one datagram at a time off its socket. A datagram that
//! decodes is forwarded to the bridge; any other is dropped, and the listener
//! goes on to the next.

use vstd::prelude::*;
use crate::decoder::{decode, parse_packet, DecodeError};
use crate::telemetry::TelemetryData;

verus! {

/// The most bytes taken from one datagram.
pub const DATAGRAM_CAPACITY: usize = 1024;

/// The UDP port the simulation sends to.
pub const LISTEN_PORT: u16 = 20782;

/// What is to be done with a received datagram.
#[derive(Clone, Copy, Debug, PartialEq, Eq, Structural)]
pub enum ListenerAction {
    /// Hand the record to the bridge.
    Forward(TelemetryData),
    /// Drop the datagram.
    Discard,
}

/// The action owed for a datagram: forward what it decodes to, discard it
/// when it does not decode.
pub open spec fn action_for(datagram: Seq<u8>) -> ListenerAction {
    match decode(datagram) {
        Ok(record) => ListenerAction::Forward(record),
        Err(_) => ListenerAction::Discard,
    }
}

/// Decides what to do with the bytes of one received datagram.
pub fn on_datagram(datagram: &[u8]) -> (action: ListenerAction)
    ensures
        action == action_for(datagram@),
{
    match parse_packet(datagram) {
        Ok(record) => ListenerAction::Forward(record),
        Err(DecodeError::TooShort) => ListenerAction::Discard,
    }
}

} // verus!
