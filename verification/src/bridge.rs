//! The device bridge: which record is held, and what is sent to the device.
//!
//! The bridge starts out waiting for its first record and holds the zero
//! record meanwhile. On every turn it looks once into the channel from the
//! listener, without waiting; a record found there replaces the held one.
//! Then it sends the gear report of the held record. It never goes back to
//! waiting, and a replaced record is gone.

use vstd::prelude::*;
use tokio::sync::mpsc::error::TryRecvError;
use tokio::sync::mpsc::Receiver;
use crate::report::{create_hid_packet, report_bytes, GEAR_COMMAND};
use crate::telemetry::TelemetryData;

verus! {

/// How many records the channel from the listener can hold.
pub const CHANNEL_CAPACITY: usize = 10;

/// How many bytes of acknowledgment are read after each report.
pub const ACK_LEN: usize = 5;

/// The receiving half of tokio's bounded channel, `tokio::sync::mpsc::Receiver`.
/// Nothing is known of what is inside it.
#[verifier::external_type_specification]
#[verifier::external_body]
#[verifier::reject_recursive_types(T)]
pub struct ExReceiver<T>(Receiver<T>);

/// The error of a look into the channel that found nothing,
/// `tokio::sync::mpsc::error::TryRecvError`.
#[verifier::external_type_specification]
#[verifier::external_body]
pub struct ExTryRecvError(TryRecvError);

/// The state of the bridge.
#[derive(Clone, Copy, Debug, PartialEq, Eq, Structural)]
pub enum Bridge {
    /// No record has arrived yet.
    AwaitingFirstRecord,
    /// The record that arrived last.
    Relaying(TelemetryData),
}

impl Bridge {
    /// The record the bridge holds: the zero record until one has arrived.
    pub open spec fn held(self) -> TelemetryData {
        match self {
            Bridge::AwaitingFirstRecord => TelemetryData::zero(),
            Bridge::Relaying(record) => record,
        }
    }

    /// The state after one look into the channel.
    pub open spec fn after(self, polled: Option<TelemetryData>) -> Bridge {
        match polled {
            Some(record) => Bridge::Relaying(record),
            None => self,
        }
    }

    /// The state after a run of looks into the channel, earliest first.
    pub open spec fn after_all(self, polls: Seq<Option<TelemetryData>>) -> Bridge
        decreases polls.len(),
    {
        if polls.len() == 0 {
            self
        } else {
            self.after_all(polls.drop_last()).after(polls.last())
        }
    }

    /// The report sent while in this state.
    pub open spec fn report(self) -> Seq<u8> {
        report_bytes(self.held(), GEAR_COMMAND)
    }

    /// A bridge that waits for its first record.
    pub fn new() -> (bridge: Bridge)
        ensures
            bridge == Bridge::AwaitingFirstRecord,
    {
        Bridge::AwaitingFirstRecord
    }

    /// The record the bridge holds.
    pub fn held_record(&self) -> (record: TelemetryData)
        ensures
            record == self.held(),
    {
        match self {
            Bridge::AwaitingFirstRecord => TelemetryData::default(),
            Bridge::Relaying(record) => *record,
        }
    }

    /// One turn of the bridge, given what the look into the channel found:
    /// takes the record if there is one, and returns the report to send.
    pub fn step(&mut self, polled: Option<TelemetryData>) -> (report: Vec<u8>)
        ensures
            *final(self) == old(self).after(polled),
            report@ == final(self).report(),
    {
        if let Some(record) = polled {
            *self = Bridge::Relaying(record);
        }
        let held = self.held_record();
        create_hid_packet(&held, GEAR_COMMAND)
    }

    /// One turn of the bridge on a live channel: looks into the channel once,
    /// without waiting, and goes on as `step` does with what it found. An
    /// empty channel and a closed one both count as nothing found.
    pub fn poll(&mut self, channel: &mut Receiver<TelemetryData>) -> (report: Vec<u8>)
        ensures
            exists|polled: Option<TelemetryData>| *final(self) == old(self).after(polled),
            report@ == final(self).report(),
    {
        let polled = match try_receive(channel) {
            Ok(record) => Some(record),
            Err(_) => None,
        };
        self.step(polled)
    }
}

/// Calls `tokio::sync::mpsc::Receiver::try_recv`, which takes the oldest record
/// out of the channel if one is there and fails otherwise, without waiting for
/// a sender. What it finds depends on what the senders have done so far, so
/// nothing is claimed about the outcome.
#[verifier::external_body]
fn try_receive(
    channel: &mut Receiver<TelemetryData>,
) -> (polled: Result<TelemetryData, TryRecvError>) {
    channel.try_recv()
}

/// No look of the run found a record.
pub open spec fn found_nothing(polls: Seq<Option<TelemetryData>>) -> bool {
    forall|i: int| 0 <= i < polls.len() ==> polls[i] is None
}

/// Look `i` of the run found a record, and no later look found one.
pub open spec fn found_last_at(polls: Seq<Option<TelemetryData>>, i: int) -> bool {
    &&& 0 <= i < polls.len()
    &&& polls[i] is Some
    &&& forall|j: int| i < j < polls.len() ==> polls[j] is None
}

/// Latest wins: after any run of looks into the channel the bridge holds
/// the record found last, whatever it held or found before; when nothing was
/// found it is as it was.
pub proof fn lemma_latest_wins(state: Bridge, polls: Seq<Option<TelemetryData>>)
    ensures
        found_nothing(polls) ==> state.after_all(polls) == state,
        forall|i: int| #[trigger]
            found_last_at(polls, i) ==> state.after_all(polls) == Bridge::Relaying(polls[i]->0),
    decreases polls.len(),
{
    if polls.len() > 0 {
        let earlier = polls.drop_last();
        lemma_latest_wins(state, earlier);
        if polls.last() is None {
            if found_nothing(polls) {
                assert forall|i: int| 0 <= i < earlier.len() implies earlier[i] is None by {
                    assert(earlier[i] == polls[i]);
                }
            }
            assert forall|i: int| #[trigger] found_last_at(polls, i) implies state.after_all(polls)
                == Bridge::Relaying(polls[i]->0) by {
                assert(earlier[i] == polls[i]);
                assert forall|j: int| i < j < earlier.len() implies earlier[j] is None by {
                    assert(earlier[j] == polls[j]);
                }
                assert(found_last_at(earlier, i));
            }
        } else {
            assert(!found_nothing(polls));
            assert forall|i: int| #[trigger] found_last_at(polls, i) implies i == polls.len()
                - 1 by {}
        }
    }
}

/// No replay: once a record has been taken, nothing of what the bridge held
/// before is left in its state.
pub proof fn lemma_no_replay(one: Bridge, other: Bridge, record: TelemetryData)
    ensures
        one.after(Some(record)) == other.after(Some(record)),
        one.after(Some(record)).held() == record,
{
}

/// The held record changes only by being found: a bridge comes to hold
/// `record` by finding it in the channel, or by having held it and finding
/// nothing.
pub proof fn lemma_held_only_if_found(
    state: Bridge,
    polled: Option<TelemetryData>,
    record: TelemetryData,
)
    requires
        state.after(polled) == Bridge::Relaying(record),
    ensures
        polled == Some(record) || (polled is None && state == Bridge::Relaying(record)),
{
}

/// No way back: a bridge that relays keeps relaying, whatever it finds in the
/// channel.
pub proof fn lemma_relaying_stays(state: Bridge, polls: Seq<Option<TelemetryData>>)
    requires
        state is Relaying,
    ensures
        state.after_all(polls) is Relaying,
    decreases polls.len(),
{
    if polls.len() > 0 {
        lemma_relaying_stays(state, polls.drop_last());
    }
}

} // verus!
