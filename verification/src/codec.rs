//! The control-update wire codec.
//!
//! A control update carries exactly one `Command` value as a human-readable
//! payload: the transform's name as a quoted string, the same framing the
//! edge gateway's structured encoder puts on the wire.  `encode_update` and
//! `decode_update` are total, and decoding inverts encoding exactly for every
//! member of the closed set.

use vstd::prelude::*;
use vstd::string::StringExecFns;

use crate::command::Command;

verus! {

/// The serialized form of one transform: its name as a quoted string.
pub open spec fn spec_encode(c: Command) -> Seq<char> {
    match c {
        Command::Capitalize => "\"Capitalize\""@,
        Command::Reverse => "\"Reverse\""@,
        Command::ToLowerCase => "\"ToLowerCase\""@,
        Command::ToUpperCase => "\"ToUpperCase\""@,
    }
}

/// Which payloads decode, and to what: exactly the four encoded forms are
/// accepted; anything else is malformed.
pub open spec fn spec_decode(s: Seq<char>) -> Option<Command> {
    if s == "\"Capitalize\""@ {
        Some(Command::Capitalize)
    } else if s == "\"Reverse\""@ {
        Some(Command::Reverse)
    } else if s == "\"ToLowerCase\""@ {
        Some(Command::ToLowerCase)
    } else if s == "\"ToUpperCase\""@ {
        Some(Command::ToUpperCase)
    } else {
        None
    }
}

/// Encodes a transform into a control-update payload.
pub fn encode_update(c: &Command) -> (r: String)
    ensures
        r@ == spec_encode(*c),
{
    match c {
        Command::Capitalize => String::from_str("\"Capitalize\""),
        Command::Reverse => String::from_str("\"Reverse\""),
        Command::ToLowerCase => String::from_str("\"ToLowerCase\""),
        Command::ToUpperCase => String::from_str("\"ToUpperCase\""),
    }
}

/// Decodes a control-update payload, accepting exactly the encoded form of
/// each member of the closed set.
pub fn decode_update(payload: &str) -> (r: Option<Command>)
    ensures
        r == spec_decode(payload@),
{
    let p = String::from_str(payload);
    if p == String::from_str("\"Capitalize\"") {
        Some(Command::Capitalize)
    } else if p == String::from_str("\"Reverse\"") {
        Some(Command::Reverse)
    } else if p == String::from_str("\"ToLowerCase\"") {
        Some(Command::ToLowerCase)
    } else if p == String::from_str("\"ToUpperCase\"") {
        Some(Command::ToUpperCase)
    } else {
        None
    }
}

/// Round trip: decoding the encoding of any transform yields that transform
/// again, for every member of the closed set.
pub proof fn lemma_update_round_trip(c: Command)
    ensures
        spec_decode(spec_encode(c)) == Some(c),
{
    reveal_strlit("\"Capitalize\"");
    reveal_strlit("\"Reverse\"");
    reveal_strlit("\"ToLowerCase\"");
    reveal_strlit("\"ToUpperCase\"");
    assert("\"Capitalize\""@.len() == 12);
    assert("\"Reverse\""@.len() == 9);
    assert("\"ToLowerCase\""@.len() == 13);
    assert("\"ToUpperCase\""@.len() == 13);
    assert("\"ToLowerCase\""@[3] == 'L' && "\"ToUpperCase\""@[3] == 'U');
}

} // verus!
