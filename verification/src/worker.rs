//! The job worker: one of N competing consumers on the shared work queue.
//!
//! For each job the worker decodes the payload as UTF-8 text, reads the
//! active transform from the shared configuration cell, applies it, and
//! publishes the result to the job's reply destination.  Each job is handled
//! independently: a malformed payload or a missing reply destination is an
//! error for that job alone and never terminates the loop.
//!
//! The queue-group dispatch itself is the broker's: each published job lands
//! on exactly one member of the group.  `lemma_exactly_one_delivery` states
//! what that guarantee adds up to: however M jobs are spread over W workers,
//! the per-worker tallies sum to exactly M, each job counted once.

use vstd::prelude::*;
use vstd::utf8::decode_utf8;
use vstd::utf8::valid_utf8;

use crate::command::Command;
use crate::command::spec_apply;
use crate::config::ConfigCell;
use crate::text::decode_utf8_bytes;

verus! {

/// Why one job failed.  Either way the job is reported and dropped; the
/// worker loop goes on with the next job.
#[derive(Clone, Copy, Debug, PartialEq, Eq, Structural)]
pub enum JobError {
    /// The payload is not valid UTF-8 text.
    DecodeFailed,
    /// The broker envelope carried no reply destination: a violation of the
    /// relay contract, surfaced rather than silently dropped.
    NoReplyDestination,
}

/// A finished job: what to publish, and where.
#[derive(Debug)]
pub struct JobReply {
    /// The reply destination the broker envelope supplied.
    pub destination: String,
    /// The transformed text.
    pub payload: String,
}

/// Handles one job from the shared queue under the worker's active
/// transform.  A valid payload with a reply destination always succeeds, and
/// the reply is exactly the active transform applied to the decoded text; a
/// payload that is not UTF-8 fails that job alone, and a missing reply
/// destination is surfaced as the protocol violation it is.
pub fn handle_job(cell: &ConfigCell, payload: &[u8], reply: Option<String>) -> (r: Result<
    JobReply,
    JobError,
>)
    ensures
        !valid_utf8(payload@) ==> r == Err::<JobReply, JobError>(JobError::DecodeFailed),
        valid_utf8(payload@) && reply is None ==> r == Err::<JobReply, JobError>(
            JobError::NoReplyDestination,
        ),
        valid_utf8(payload@) ==> (reply matches Some(d) ==> (r matches Ok(j) && j.destination@
            == d@ && j.payload@ == spec_apply(cell.active, decode_utf8(payload@)))),
{
    match decode_utf8_bytes(payload) {
        None => Err(JobError::DecodeFailed),
        Some(text) => match reply {
            None => Err(JobError::NoReplyDestination),
            Some(destination) => {
                let active = cell.read();
                let transformed = active.call_on(text);
                Ok(JobReply { destination, payload: transformed })
            },
        },
    }
}

/// Command-line configuration of one worker process, as already-resolved
/// plain values.
pub struct Cli {
    /// Host of the broker to connect to.
    pub nats_ip: String,
    /// Port of the broker to connect to.
    pub nats_port: u16,
    /// This worker's unique identity, generated at startup if absent; scopes
    /// the durable cursor on the control stream.
    pub worker_id: String,
    /// Logging verbosity and sink.
    pub instrumentation: crate::logger::Instrumentation,
}

/// How many of the dispatched jobs one worker handled: `assignment[j]` is
/// the worker the broker handed job `j` to.
pub open spec fn jobs_handled_by(assignment: Seq<int>, w: int) -> nat
    decreases assignment.len(),
{
    if assignment.len() == 0 {
        0
    } else {
        jobs_handled_by(assignment.drop_last(), w) + if assignment.last() == w {
            1nat
        } else {
            0nat
        }
    }
}

/// The jobs handled across workers `0 .. num_workers`, added up.
pub open spec fn total_handled(assignment: Seq<int>, num_workers: int) -> nat
    decreases num_workers,
{
    if num_workers <= 0 {
        0
    } else {
        total_handled(assignment, num_workers - 1) + jobs_handled_by(assignment, num_workers - 1)
    }
}

proof fn lemma_total_handled_empty(num_workers: int)
    ensures
        total_handled(Seq::<int>::empty(), num_workers) == 0,
    decreases num_workers,
{
    if num_workers > 0 {
        lemma_total_handled_empty(num_workers - 1);
    }
}

proof fn lemma_total_handled_push(assignment: Seq<int>, w: int, num_workers: int)
    requires
        0 <= w < num_workers,
    ensures
        total_handled(assignment.push(w), num_workers) == total_handled(assignment, num_workers)
            + 1,
    decreases num_workers,
{
    assert(assignment.push(w).drop_last() =~= assignment);
    if num_workers > 0 {
        if w < num_workers - 1 {
            lemma_total_handled_push(assignment, w, num_workers - 1);
        } else {
            lemma_total_handled_same(assignment, w, num_workers - 1);
        }
    }
}

proof fn lemma_total_handled_same(assignment: Seq<int>, w: int, num_workers: int)
    requires
        w >= num_workers,
    ensures
        total_handled(assignment.push(w), num_workers) == total_handled(assignment, num_workers),
    decreases num_workers,
{
    assert(assignment.push(w).drop_last() =~= assignment);
    if num_workers > 0 {
        lemma_total_handled_same(assignment, w, num_workers - 1);
    }
}

/// Exactly-one delivery.  Each job the broker dispatches goes to a single
/// worker of the group — `assignment` maps each of the M jobs to the one
/// worker that handled it, so no job can be counted for two workers — and
/// the per-worker tallies over W workers sum to exactly M.
pub proof fn lemma_exactly_one_delivery(assignment: Seq<int>, num_workers: int)
    requires
        forall|j: int| 0 <= j < assignment.len() ==> 0 <= #[trigger] assignment[j] < num_workers,
    ensures
        total_handled(assignment, num_workers) == assignment.len(),
    decreases assignment.len(),
{
    if assignment.len() == 0 {
        assert(assignment =~= Seq::<int>::empty());
        lemma_total_handled_empty(num_workers);
    } else {
        let prefix = assignment.drop_last();
        lemma_exactly_one_delivery(prefix, num_workers);
        lemma_total_handled_push(prefix, assignment.last(), num_workers);
        assert(prefix.push(assignment.last()) =~= assignment);
    }
}

} // verus!
