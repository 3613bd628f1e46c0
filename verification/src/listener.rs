//! The config-update listener: one background task per worker.
//!
//! The listener provisions a named, size-capped durable log and a pull
//! consumer scoped to this worker's identity, then loops: pull the next
//! control message, decode it, and apply it to the shared configuration cell.
//! The provisioning protocol is the state machine here; the per-message work
//! is `handle_control_message`.  A message is acknowledged exactly when it
//! decoded, so a malformed payload is redelivered rather than lost, and never
//! crashes the worker.

use vstd::prelude::*;
use vstd::string::StringExecFns;
use vstd::utf8::decode_utf8;
use vstd::utf8::valid_utf8;

use crate::codec::spec_decode;
use crate::codec::decode_update;
use crate::command::Command;
use crate::config::ConfigCell;
use crate::config::lemma_apply_update_idempotent;
use crate::config::spec_update_writes;
use crate::config::spec_updated;
use crate::text::decode_utf8_bytes;

verus! {

/// Where the listener stands in its provisioning protocol.  `Faulted` is
/// terminal: a worker that never reaches `Listening` is a startup failure,
/// not something to run without.
#[derive(Clone, Copy, Debug, PartialEq, Eq, Structural)]
pub enum ListenerState {
    Uninitialized,
    StreamEnsured,
    ConsumerEnsured,
    Listening,
    Faulted,
}

/// What the broker reported back during provisioning, or that one control
/// message has been handled.
#[derive(Clone, Copy, Debug, PartialEq, Eq, Structural)]
pub enum ListenerEvent {
    StreamReady,
    StreamFailed,
    ConsumerReady,
    ConsumerFailed,
    PullStarted,
    UpdateHandled,
}

/// The provisioning protocol: streams before consumers, consumers before
/// listening; any failure, and any event out of protocol, faults the
/// listener for good.
pub open spec fn spec_step(s: ListenerState, e: ListenerEvent) -> ListenerState {
    match (s, e) {
        (ListenerState::Uninitialized, ListenerEvent::StreamReady) => ListenerState::StreamEnsured,
        (ListenerState::StreamEnsured, ListenerEvent::ConsumerReady) => ListenerState::ConsumerEnsured,
        (ListenerState::ConsumerEnsured, ListenerEvent::PullStarted) => ListenerState::Listening,
        (ListenerState::Listening, ListenerEvent::UpdateHandled) => ListenerState::Listening,
        _ => ListenerState::Faulted,
    }
}

/// What `handle_control_message` decided: an accepted update to acknowledge,
/// or a malformed payload to leave unacknowledged for redelivery.
#[derive(Clone, Copy, Debug, PartialEq, Eq, Structural)]
pub enum ControlOutcome {
    Applied { wrote: bool },
    Rejected,
}

impl ListenerState {
    /// Advances the provisioning protocol on one event.
    pub fn step(self, e: ListenerEvent) -> (r: ListenerState)
        ensures
            r == spec_step(self, e),
    {
        match (self, e) {
            (ListenerState::Uninitialized, ListenerEvent::StreamReady) => ListenerState::StreamEnsured,
            (ListenerState::StreamEnsured, ListenerEvent::ConsumerReady) => ListenerState::ConsumerEnsured,
            (ListenerState::ConsumerEnsured, ListenerEvent::PullStarted) => ListenerState::Listening,
            (ListenerState::Listening, ListenerEvent::UpdateHandled) => ListenerState::Listening,
            _ => ListenerState::Faulted,
        }
    }
}

/// A faulted listener stays faulted: no event recovers it.
pub proof fn lemma_faulted_terminal(e: ListenerEvent)
    ensures
        spec_step(ListenerState::Faulted, e) == ListenerState::Faulted,
{
}

/// A listening listener keeps listening across any number of handled
/// updates.
pub proof fn lemma_listening_stable()
    ensures
        spec_step(ListenerState::Listening, ListenerEvent::UpdateHandled) == ListenerState::Listening,
{
}

/// Only full provisioning reaches `Listening`: from the start, exactly the
/// stream, then the consumer, then the first pull succeeding gets there.  A
/// worker that skipped or failed any part of it never silently serves with
/// an unpatchable configuration.
pub proof fn lemma_listening_needs_full_provisioning(
    e1: ListenerEvent,
    e2: ListenerEvent,
    e3: ListenerEvent,
)
    ensures
        spec_step(spec_step(spec_step(ListenerState::Uninitialized, e1), e2), e3)
            == ListenerState::Listening <==> (e1 == ListenerEvent::StreamReady && e2
            == ListenerEvent::ConsumerReady && e3 == ListenerEvent::PullStarted),
{
}

impl ControlOutcome {
    /// Whether the message is acknowledged to the broker: exactly when it was
    /// decoded and applied.
    pub fn acknowledges(&self) -> (r: bool)
        ensures
            r == !(*self matches ControlOutcome::Rejected),
    {
        match self {
            ControlOutcome::Applied { .. } => true,
            ControlOutcome::Rejected => false,
        }
    }
}

/// Handles one message pulled from the control stream: decode it into a
/// transform and apply it to the cell.  A payload that decodes is always
/// applied and acknowledged, writing only when the value differs from the
/// active one; a malformed payload leaves the cell untouched and is not
/// acknowledged, so the broker redelivers it.
pub fn handle_control_message(cell: &mut ConfigCell, payload: &str) -> (r: ControlOutcome)
    requires
        old(cell).writes < u64::MAX,
    ensures
        match spec_decode(payload@) {
            Some(c) => *final(cell) == spec_updated(*old(cell), c) && r == (
            ControlOutcome::Applied { wrote: spec_update_writes(*old(cell), c) }),
            None => *final(cell) == *old(cell) && r == ControlOutcome::Rejected,
        },
{
    match decode_update(payload) {
        Some(c) => {
            let wrote = cell.apply_update(c);
            ControlOutcome::Applied { wrote }
        },
        None => ControlOutcome::Rejected,
    }
}

/// What a control payload straight off the wire means: it must be UTF-8
/// text, and that text must be the encoded form of one transform.
pub open spec fn spec_decode_bytes(payload: Seq<u8>) -> Option<Command> {
    if valid_utf8(payload) {
        spec_decode(decode_utf8(payload))
    } else {
        None
    }
}

/// Handles one control message as it arrives from the broker, bytes and all:
/// decode the payload as UTF-8 text, then as a transform, and apply it.
/// Exactly the payloads that decode are acknowledged.
pub fn handle_control_bytes(cell: &mut ConfigCell, payload: &[u8]) -> (r: ControlOutcome)
    requires
        old(cell).writes < u64::MAX,
    ensures
        match spec_decode_bytes(payload@) {
            Some(c) => *final(cell) == spec_updated(*old(cell), c) && r == (
            ControlOutcome::Applied { wrote: spec_update_writes(*old(cell), c) }),
            None => *final(cell) == *old(cell) && r == ControlOutcome::Rejected,
        },
{
    match decode_utf8_bytes(payload) {
        Some(text) => handle_control_message(cell, text.as_str()),
        None => ControlOutcome::Rejected,
    }
}

/// Redelivery of a control update is a no-op: whatever cell a first delivery
/// of a well-formed payload leaves behind, a second delivery of the same
/// payload leaves it exactly as it is and writes nothing.
pub proof fn lemma_redelivery_is_noop(cell: ConfigCell, payload: Seq<u8>)
    requires
        spec_decode_bytes(payload) is Some,
    ensures
        spec_decode_bytes(payload) matches Some(c) ==> spec_updated(spec_updated(cell, c), c)
            == spec_updated(cell, c) && !spec_update_writes(spec_updated(cell, c), c),
{
    let c = spec_decode_bytes(payload)->Some_0;
    lemma_apply_update_idempotent(cell, c);
}

/// The durable cursor name that scopes this worker's position in the control
/// stream: the fixed prefix followed by the worker's identity.
pub fn control_durable_name(worker_id: &str) -> (r: String)
    ensures
        r@ == "processor-fnf-"@ + worker_id@,
{
    let prefix = String::from_str("processor-fnf-");
    prefix.concat(worker_id)
}

} // verus!
