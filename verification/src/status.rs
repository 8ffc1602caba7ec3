//! HTTP status codes as the bot shows them to a user.

use vstd::prelude::*;
use crate::text::{decimal, push_decimal};

verus! {

/// The reason phrase that the `http` crate knows for the status code `code`:
/// what `StatusCode::canonical_reason` returns for the code that
/// `StatusCode::from_u16` makes of it, and `None` where there is no such code
/// or no phrase for it.
pub uninterp spec fn canonical_reason(code: u16) -> Option<Seq<char>>;

/// The view of an optional string slice: its characters, where there is one.
pub open spec fn opt_str(s: Option<&str>) -> Option<Seq<char>> {
    match s {
        Some(text) => Some(text@),
        None => None,
    }
}

/// What stands in place of the reason phrase of a code that has none.
pub open spec fn unknown_reason() -> Seq<char> {
    "<unknown status code>"@
}

/// The line that describes a status code: its number in decimal, a colon and
/// a space, and its reason phrase, or [`unknown_reason`] where it has none.
pub open spec fn status_line(code: u16, reason: Option<Seq<char>>) -> Seq<char> {
    decimal(code as nat) + ": "@ + match reason {
        Some(phrase) => phrase,
        None => unknown_reason(),
    }
}

/// Looks the reason phrase of `code` up with `StatusCode::from_u16` and
/// `StatusCode::canonical_reason` of the `http` crate.
///
/// Trusted: the phrase depends on the code alone; [`canonical_reason`] is the
/// name of that phrase.
#[verifier::external_body]
pub(crate) fn reason_phrase(code: u16) -> (reason: Option<&'static str>)
    ensures
        opt_str(reason) == canonical_reason(code),
{
    match http::StatusCode::from_u16(code) {
        Ok(status) => status.canonical_reason(),
        Err(_) => None,
    }
}

/// Describes the status code `code`, whose reason phrase is `reason`.
pub fn describe_status(code: u16, reason: Option<&str>) -> (line: String)
    ensures
        line@ == status_line(code, opt_str(reason)),
{
    let mut line = String::new();
    push_decimal(&mut line, code as u64);
    line.append(": ");
    match reason {
        Some(phrase) => line.append(phrase),
        None => line.append("<unknown status code>"),
    }
    assert(line@ =~= status_line(code, opt_str(reason)));
    line
}

/// Describes the status code `code` with the reason phrase that is known for
/// it.
pub fn status_description(code: u16) -> (line: String)
    ensures
        line@ == status_line(code, canonical_reason(code)),
{
    describe_status(code, reason_phrase(code))
}

} // verus!
