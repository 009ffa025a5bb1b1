//! The relay from datagram to report, end to end.

use vstd::prelude::*;
use crate::bridge::Bridge;
use crate::decoder::{GEAR_INDEX_OFFSET, RECORD_LEN};
use crate::listener::{action_for, ListenerAction};
use crate::report::{GEAR_COMMAND, REPORT_ID};

verus! {

/// A datagram that holds a whole record is forwarded, and once the bridge has
/// taken that record its report is the report identifier, the gear command
/// and the byte that the datagram carries as gear index.
pub proof fn lemma_gear_reaches_report(datagram: Seq<u8>, state: Bridge)
    requires
        datagram.len() >= RECORD_LEN,
    ensures
        action_for(datagram) is Forward,
        state.after(Some(action_for(datagram)->0)).report() == seq![
            REPORT_ID,
            GEAR_COMMAND,
            datagram[GEAR_INDEX_OFFSET as int],
        ],
{
}

/// A datagram shorter than a record is discarded: no record comes of it, so
/// none reaches the bridge.
pub proof fn lemma_short_datagram_is_dropped(datagram: Seq<u8>)
    requires
        datagram.len() < RECORD_LEN,
    ensures
        action_for(datagram) == ListenerAction::Discard,
{
}

} // verus!
