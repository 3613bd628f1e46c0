//! The request-reply relay: a stateless forwarder.
//!
//! For each inbound request on the public subject the relay re-publishes the
//! same payload as a new request on the shared work queue, awaits exactly one
//! reply, and relays that reply, again unchanged, to the original requester's
//! reply destination.  The relay keeps no state across requests; each
//! request's reply destination lives only while that request is handled, so
//! independent requests never interfere.

use vstd::prelude::*;
use vstd::string::StringExecFns;

use crate::subjects::work_queue_subject;
use crate::worker::JobError;

verus! {

/// One request's journey through the relay: forward the payload to the work
/// queue, then deliver whatever comes back to the remembered destination.
#[derive(Debug)]
pub struct ForwardPlan {
    /// Where the payload is forwarded: always the shared work queue.
    pub forward_subject: String,
    /// The inbound payload, passed through untouched.
    pub payload: Vec<u8>,
    /// The original requester's reply destination, remembered for this one
    /// request.
    pub reply_to: String,
}

/// Plans the relay of one inbound request.  A request that carries a reply
/// destination is always forwarded, payload unchanged, to the shared work
/// queue; one without any is a protocol violation, reported so the relay can
/// go on serving, never a crash.
pub fn plan_relay(payload: Vec<u8>, reply: Option<String>) -> (r: Result<ForwardPlan, JobError>)
    ensures
        reply is None <==> r == Err::<ForwardPlan, JobError>(JobError::NoReplyDestination),
        reply matches Some(d) ==> (r matches Ok(p) && p.forward_subject@ == "nats.wq"@ && p.payload@
            == payload@ && p.reply_to@ == d@),
{
    match reply {
        None => Err(JobError::NoReplyDestination),
        Some(d) => {
            let subject = work_queue_subject();
            Ok(
                ForwardPlan {
                    forward_subject: String::from_str(subject),
                    payload,
                    reply_to: d,
                },
            )
        },
    }
}

/// The relay's reply leg: the one awaited response is delivered unchanged to
/// the destination remembered for this request, preserving the correlation
/// between request and reply.
pub fn plan_reply(plan: ForwardPlan, response: Vec<u8>) -> (r: (String, Vec<u8>))
    ensures
        r.0@ == plan.reply_to@,
        r.1@ == response@,
{
    (plan.reply_to, response)
}

/// Command-line configuration of one relay process, as already-resolved
/// plain values.
pub struct Cli {
    /// Host of the broker to connect to.
    pub nats_ip: String,
    /// Port of the broker to connect to.
    pub nats_port: u16,
    /// Logging verbosity and sink.
    pub instrumentation: crate::logger::Instrumentation,
}

} // verus!
