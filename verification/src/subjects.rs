//! The stable logical names of the system's subjects, queues and streams.
//!
//! These names are part of the wire contract between the edge gateway, the
//! request-reply relay and the worker pool, so each is pinned by a contract
//! rather than left as a loose literal at its call sites.

use vstd::prelude::*;

verus! {

/// The public subject on which the relay serves synchronous requests.
pub fn request_reply_subject() -> (r: &'static str)
    ensures
        r@ == "nats.request-reply"@,
{
    "nats.request-reply"
}

/// The shared work queue the workers compete on.
pub fn work_queue_subject() -> (r: &'static str)
    ensures
        r@ == "nats.wq"@,
{
    "nats.wq"
}

/// The queue-group identity under which the workers compete: the broker
/// hands each job to exactly one member of this group.
pub fn worker_group() -> (r: &'static str)
    ensures
        r@ == "QUEUE_WORKERS"@,
{
    "QUEUE_WORKERS"
}

/// The topic of the capped control stream carrying transform updates.
pub fn control_subject() -> (r: &'static str)
    ensures
        r@ == "nats.fnf"@,
{
    "nats.fnf"
}

/// The name of the durable control stream itself.
pub fn control_stream_name() -> (r: &'static str)
    ensures
        r@ == "COMMANDS"@,
{
    "COMMANDS"
}

/// How many undelivered messages the control stream retains: only the
/// latest update matters, so the stream is capped at one.
pub fn control_stream_capacity() -> (r: i64)
    ensures
        r == 1,
{
    1
}

} // verus!
