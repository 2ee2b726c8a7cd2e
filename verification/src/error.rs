//! The error that a fetch ends with.

use crate::fetcher::Cause;
use crate::text::{push_signed_decimal, signed_decimal};
use vstd::prelude::*;
use vstd::string::*;

verus! {

/// Why a fetch failed for good.
#[derive(Debug, PartialEq, Eq)]
pub enum MyError {
    /// The failure was permanent: a client error, or no response at all. It
    /// was not retried.
    PermanentReqwestError { source: Cause },
    /// The failure was transient and lasted until the time budget ran out.
    /// `tries` counts the attempts that were made.
    TransientReqwestError { tries: i32, source: Cause },
}

/// The words by which a transient error names its count of attempts.
pub open spec fn failed_times(tries: int) -> Seq<char> {
    "failed "@ + signed_decimal(tries) + " times"@
}

impl MyError {
    /// The cause that the error carries.
    pub open spec fn cause(&self) -> Cause {
        match *self {
            MyError::PermanentReqwestError { source } => source,
            MyError::TransientReqwestError { source, .. } => source,
        }
    }

    /// How the error reads. A permanent error reads as its cause does; a
    /// transient one says how often the request failed, then gives the
    /// cause.
    pub open spec fn text(&self) -> Seq<char> {
        match *self {
            MyError::PermanentReqwestError { source } => source.text(),
            MyError::TransientReqwestError { tries, source } => "The request "@ + failed_times(
                tries as int,
            ) + ": "@ + source.text(),
        }
    }

    /// The error's text.
    pub fn to_string(&self) -> (text: String)
        ensures
            text@ == self.text(),
    {
        let mut text = String::new();
        match self {
            MyError::PermanentReqwestError { source } => {
                source.push_text(&mut text);
            },
            MyError::TransientReqwestError { tries, source } => {
                text.append("The request ");
                text.append("failed ");
                push_signed_decimal(&mut text, *tries);
                text.append(" times");
                text.append(": ");
                source.push_text(&mut text);
            },
        }
        assert(text@ =~= self.text());
        text
    }
}

} // verus!
