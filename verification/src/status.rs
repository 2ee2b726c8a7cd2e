//! HTTP status codes: which of them report an error, and how they read.

use crate::text::{decimal, push_decimal};
use vstd::prelude::*;
use vstd::string::*;

verus! {

/// The status code reports a client error: it lies in 400..=499.
pub open spec fn client_error(code: u16) -> bool {
    400 <= code < 500
}

/// The status code reports a server error: it lies in 500..=599.
pub open spec fn server_error(code: u16) -> bool {
    500 <= code < 600
}

/// Tells whether the status code reports a client error.
pub fn is_client_error(code: u16) -> (yes: bool)
    ensures
        yes == client_error(code),
{
    400 <= code && code < 500
}

/// Tells whether the status code reports a server error.
pub fn is_server_error(code: u16) -> (yes: bool)
    ensures
        yes == server_error(code),
{
    500 <= code && code < 600
}

/// The standard reason phrase of a status code, as
/// `reqwest::StatusCode::canonical_reason` gives it; `None` where the number
/// is no status code (outside 100..=999) or has no standard phrase.
pub uninterp spec fn canonical_reason(code: u16) -> Option<Seq<char>>;

/// `reqwest::StatusCode::from_u16` followed by `canonical_reason`. Trusted:
/// that the phrase depends on the number alone, which is what naming it
/// claims. No phrase comes back for a number that `from_u16` rejects.
#[verifier::external_body]
fn reason_phrase(code: u16) -> (reason: Option<&'static str>)
    ensures
        match reason {
            Some(phrase) => canonical_reason(code) == Some(phrase@),
            None => canonical_reason(code) is None,
        },
{
    match reqwest::StatusCode::from_u16(code) {
        Ok(status) => status.canonical_reason(),
        Err(_) => None,
    }
}

/// How a status code reads in a message: the number, then a space and the
/// reason phrase where the code has one.
pub open spec fn status_line(code: u16, reason: Option<Seq<char>>) -> Seq<char> {
    match reason {
        Some(phrase) => decimal(code as nat) + seq![' '] + phrase,
        None => decimal(code as nat),
    }
}

/// Appends the status line of `code`, given its reason phrase, to `text`.
pub fn push_status_line(text: &mut String, code: u16, reason: Option<&str>)
    ensures
        final(text)@ == old(text)@ + status_line(
            code,
            match reason {
                Some(phrase) => Some(phrase@),
                None => None,
            },
        ),
{
    push_decimal(text, code as u32);
    match reason {
        Some(phrase) => {
            proof {
                reveal_strlit(" ");
            }
            text.append(" ");
            text.append(phrase);
            assert(text@ =~= old(text)@ + (decimal(code as nat) + seq![' '] + phrase@));
        },
        None => {},
    }
}

/// Appends the status line of `code`, with its standard reason phrase, to
/// `text`.
pub fn push_status(text: &mut String, code: u16)
    ensures
        final(text)@ == old(text)@ + status_line(code, canonical_reason(code)),
{
    let reason = reason_phrase(code);
    push_status_line(text, code, reason);
}

} // verus!
