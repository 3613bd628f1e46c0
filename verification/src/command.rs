//! The transform registry: a closed set of named pure string transforms.
//!
//! `Command` is the swappable unit of computation.  `resolve` parses a command
//! name over a fixed alias table, and `call_on` applies the active transform to
//! one job payload.  Application is total over every string, including the
//! empty string and strings of non-ASCII characters: case changes go through
//! the locale-independent Unicode case mapping of the standard library, and
//! reversal is by Unicode scalar value, never by byte.

use vstd::prelude::*;
use vstd::string::StrSliceExecFns;
use vstd::string::StringExecFns;

verus! {

/// The Unicode uppercase mapping applied to a whole character sequence; the
/// result of `str::to_uppercase`, a function of the characters alone.
pub uninterp spec fn upper_of(s: Seq<char>) -> Seq<char>;

/// The Unicode lowercase mapping applied to a whole character sequence; the
/// result of `str::to_lowercase`, a function of the characters alone.
pub uninterp spec fn lower_of(s: Seq<char>) -> Seq<char>;

/// The Unicode uppercase property of one character; the result of
/// `char::is_uppercase`, a function of the character alone.
pub uninterp spec fn is_uppercase_char(c: char) -> bool;

/// Relies on `str::to_uppercase`: the locale-independent Unicode uppercase
/// equivalent of the input, depending on the input characters alone.
#[verifier::external_body]
fn to_upper(s: &str) -> (r: String)
    ensures
        r@ == upper_of(s@),
{
    s.to_uppercase()
}

/// Relies on `str::to_lowercase`: the locale-independent Unicode lowercase
/// equivalent of the input, depending on the input characters alone.
#[verifier::external_body]
fn to_lower(s: &str) -> (r: String)
    ensures
        r@ == lower_of(s@),
{
    s.to_lowercase()
}

/// Relies on `char::is_uppercase`: whether the character has the Unicode
/// uppercase property, depending on the character alone.
#[verifier::external_body]
fn char_is_uppercase(c: char) -> (r: bool)
    ensures
        r == is_uppercase_char(c),
{
    c.is_uppercase()
}

/// One member of the closed set of text transforms.
#[derive(Clone, Copy, Debug, PartialEq, Eq, Structural)]
pub enum Command {
    Capitalize,
    Reverse,
    ToLowerCase,
    ToUpperCase,
}

/// Why a command name was rejected; carries the rejected value for
/// user-facing diagnostics.
#[derive(Clone, Debug)]
pub enum CommandError {
    ParseFromString(String),
}

impl Default for Command {
    fn default() -> (r: Self)
        ensures
            r == Command::Capitalize,
    {
        Command::Capitalize
    }
}

/// Capitalization: the first character, when it is not already uppercase, is
/// replaced by its uppercase mapping; the rest of the string is unchanged.
pub open spec fn spec_capitalize(s: Seq<char>) -> Seq<char> {
    if s.len() == 0 {
        s
    } else if is_uppercase_char(s[0]) {
        s
    } else {
        upper_of(seq![s[0]]) + s.skip(1)
    }
}

/// What each transform returns, as a function of the input characters.
pub open spec fn spec_apply(c: Command, s: Seq<char>) -> Seq<char> {
    match c {
        Command::Capitalize => spec_capitalize(s),
        Command::Reverse => s.reverse(),
        Command::ToLowerCase => lower_of(s),
        Command::ToUpperCase => upper_of(s),
    }
}

/// The fixed alias table of the registry: which names resolve to which
/// transform.  Unknown names resolve to nothing.
pub open spec fn spec_resolve(s: Seq<char>) -> Option<Command> {
    if s == "cap"@ {
        Some(Command::Capitalize)
    } else if s == "rev"@ {
        Some(Command::Reverse)
    } else if s == "lc"@ {
        Some(Command::ToLowerCase)
    } else if s == "uc"@ {
        Some(Command::ToUpperCase)
    } else {
        None
    }
}

fn capitalize_str(s: &str) -> (r: String)
    ensures
        r@ == spec_capitalize(s@),
{
    let len = s.unicode_len();
    if len == 0 {
        return String::from_str(s);
    }
    let first = s.get_char(0);
    if char_is_uppercase(first) {
        String::from_str(s)
    } else {
        let head = s.substring_char(0, 1);
        let tail = s.substring_char(1, len);
        proof {
            assert(head@ =~= seq![s@[0]]);
            assert(tail@ =~= s@.skip(1));
        }
        let up = to_upper(head);
        up.concat(tail)
    }
}

fn reverse_str(s: &str) -> (r: String)
    ensures
        r@ == s@.reverse(),
{
    let len = s.unicode_len();
    let mut out = String::new();
    let mut i: usize = 0;
    while i < len
        invariant
            len == s@.len(),
            i <= len,
            out@ =~= s@.subrange(len - i, len as int).reverse(),
        decreases len - i,
    {
        let part = s.substring_char(len - 1 - i, len - i);
        proof {
            assert(part@ =~= seq![s@[len - 1 - i]]);
            assert(s@.subrange(len - i - 1, len as int).reverse() =~= s@.subrange(
                len - i,
                len as int,
            ).reverse() + seq![s@[len - 1 - i]]);
        }
        out.append(part);
        i = i + 1;
    }
    proof {
        assert(s@.subrange(0, len as int) =~= s@);
    }
    out
}

impl Command {
    /// Applies this transform to one job payload.  Total over every string:
    /// there is no input on which a worker may fail or panic here.
    pub fn call_on(&self, input: String) -> (r: String)
        ensures
            r@ == spec_apply(*self, input@),
    {
        match self {
            Command::Capitalize => capitalize_str(input.as_str()),
            Command::Reverse => reverse_str(input.as_str()),
            Command::ToLowerCase => to_lower(input.as_str()),
            Command::ToUpperCase => to_upper(input.as_str()),
        }
    }

    /// Parses a command name over the fixed alias table.  Succeeds exactly on
    /// the supported aliases; any other name is rejected with the original
    /// string carried in the error.
    pub fn resolve(name: &str) -> (r: Result<Command, CommandError>)
        ensures
            match r {
                Ok(c) => spec_resolve(name@) == Some(c),
                Err(e) => spec_resolve(name@) is None && (e matches CommandError::ParseFromString(v)
                    && v@ == name@),
            },
    {
        let n = String::from_str(name);
        if n == String::from_str("cap") {
            Ok(Command::Capitalize)
        } else if n == String::from_str("rev") {
            Ok(Command::Reverse)
        } else if n == String::from_str("lc") {
            Ok(Command::ToLowerCase)
        } else if n == String::from_str("uc") {
            Ok(Command::ToUpperCase)
        } else {
            Err(CommandError::ParseFromString(n))
        }
    }
}

/// Resolution is total over the alias table: every supported name resolves,
/// and to a distinct member of the closed set.  Together with the contract of
/// `call_on`, whose result is a function of the transform and the input alone
/// and which asks nothing of its input, applying a resolved transform is
/// deterministic and total for every string.
pub proof fn lemma_resolve_total_on_aliases()
    ensures
        spec_resolve("cap"@) == Some(Command::Capitalize),
        spec_resolve("rev"@) == Some(Command::Reverse),
        spec_resolve("lc"@) == Some(Command::ToLowerCase),
        spec_resolve("uc"@) == Some(Command::ToUpperCase),
{
    reveal_strlit("cap");
    reveal_strlit("rev");
    reveal_strlit("lc");
    reveal_strlit("uc");
    assert("cap"@.len() == 3);
    assert("rev"@[0] == 'r' && "cap"@[0] == 'c');
    assert("lc"@.len() == 2 && "rev"@.len() == 3);
    assert("uc"@[0] == 'u' && "lc"@[0] == 'l');
}

} // verus!
