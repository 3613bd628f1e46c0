//! The edge gateway's decisions.
//!
//! The gateway translates an HTTP call into either a synchronous request on
//! the relay's public subject or a one-way control publish that the listeners
//! eventually observe.  Parsing of the path parameter goes through the
//! transform registry, and a name that fails to parse is the client's error,
//! never the server's.

use vstd::prelude::*;
use vstd::string::StringExecFns;

use crate::codec::encode_update;
use crate::codec::spec_encode;
use crate::command::Command;
use crate::command::CommandError;
use crate::command::spec_resolve;
use crate::subjects::control_subject;
use crate::subjects::request_reply_subject;

verus! {

/// One message for the broker: where to publish, and what.
#[derive(Debug)]
pub struct PublishPlan {
    /// The subject published to.
    pub subject: String,
    /// The payload put on the wire.
    pub payload: String,
}

/// What the gateway tells an HTTP client when a call fails.
pub enum EdgeError {
    /// The path parameter is not a known transform name: the client's error.
    Command(CommandError),
    /// The broker could not be reached, or timed out: the server's error.
    Broker,
}

/// Plans the synchronous path: the text is sent as a request on the relay's
/// public subject, unchanged, and the eventual reply is the HTTP response.
pub fn plan_request_reply(message: String) -> (r: PublishPlan)
    ensures
        r.subject@ == "nats.request-reply"@,
        r.payload@ == message@,
{
    PublishPlan { subject: String::from_str(request_reply_subject()), payload: message }
}

/// Plans the control path: a name that resolves is encoded and published on
/// the control subject, one-way; an unknown name is rejected with the
/// rejected value, and nothing is published.
pub fn plan_fire_and_forget(command: &str) -> (r: Result<PublishPlan, CommandError>)
    ensures
        match spec_resolve(command@) {
            Some(c) => r matches Ok(p) && p.subject@ == "nats.fnf"@ && p.payload@ == spec_encode(
                c,
            ),
            None => r matches Err(e) && (e matches CommandError::ParseFromString(v) && v@
                == command@),
        },
{
    match Command::resolve(command) {
        Ok(c) => Ok(
            PublishPlan { subject: String::from_str(control_subject()), payload: encode_update(&c) },
        ),
        Err(e) => Err(e),
    }
}

/// Maps a failed call to the HTTP status and body the client sees: an
/// unknown transform name is a client error naming the rejected value, and
/// everything else is a server error with no internals leaked.
pub fn error_response(e: &EdgeError) -> (r: (u16, String))
    ensures
        e matches EdgeError::Command(ce) ==> (ce matches CommandError::ParseFromString(v) && r.0
            == 400 && r.1@ == "'"@ + v@ + "' is not a valid command"@),
        e matches EdgeError::Broker ==> r.0 == 500 && r.1@ == "Something went wrong"@,
{
    match e {
        EdgeError::Command(CommandError::ParseFromString(v)) => {
            let msg = String::from_str("'").concat(v.as_str()).concat(
                "' is not a valid command",
            );
            (400, msg)
        },
        EdgeError::Broker => (500, String::from_str("Something went wrong")),
    }
}

/// Command-line configuration of the gateway process, as already-resolved
/// plain values.
pub struct Cli {
    /// Host the HTTP listener binds to.
    pub rest_ip: String,
    /// Port the HTTP listener binds to.
    pub rest_port: u16,
    /// Host of the broker to connect to.
    pub nats_ip: String,
    /// Port of the broker to connect to.
    pub nats_port: u16,
    /// Logging verbosity and sink.
    pub instrumentation: crate::logger::Instrumentation,
}

} // verus!
