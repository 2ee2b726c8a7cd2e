//! Classification of one attempt: success, permanent failure or transient
//! failure.
//!
//! The tag is what the retry engine goes by: a permanent failure is never
//! retried, a transient one is retried while the schedule allows it.

use crate::status::{
    canonical_reason, client_error, is_client_error, is_server_error, push_status, server_error,
    status_line,
};
use vstd::prelude::*;
use vstd::string::*;

verus! {

/// What the transport reports of one GET. `R` is the caller's handle on a
/// response; the crate never looks inside it.
#[derive(Debug, PartialEq, Eq)]
pub enum Reply<R> {
    /// An HTTP response arrived, with this status code.
    Response { status: u16, response: R },
    /// No HTTP response arrived: the connection, the name lookup or the
    /// request itself failed. `detail` is the transport's account of it.
    NoResponse { detail: String },
}

/// Why an attempt failed.
#[derive(Debug, PartialEq, Eq)]
pub enum Cause {
    /// The server answered with an error status.
    Status { code: u16 },
    /// No answer arrived.
    Transport { detail: String },
}

/// The classified result of one attempt.
#[derive(Debug, PartialEq, Eq)]
pub enum FetchOutcome<R> {
    /// The attempt succeeded; the response is handed on.
    Success(R),
    /// The attempt failed in a way that a retry will not mend.
    PermanentFailure(Cause),
    /// The attempt failed in a way that a retry may mend.
    TransientFailure(Cause),
}

impl Cause {
    /// How the cause reads in a message.
    pub open spec fn text(&self) -> Seq<char> {
        match *self {
            Cause::Status { code } => "HTTP status "@ + status_line(code, canonical_reason(code)),
            Cause::Transport { detail } => detail@,
        }
    }

    /// Appends the cause's text to `text`.
    pub fn push_text(&self, text: &mut String)
        ensures
            final(text)@ == old(text)@ + self.text(),
    {
        match self {
            Cause::Status { code } => {
                text.append("HTTP status ");
                push_status(text, *code);
                assert(text@ =~= old(text)@ + self.text());
            },
            Cause::Transport { detail } => {
                text.append(detail.as_str());
            },
        }
    }

    /// The cause's text as a string of its own.
    pub fn to_string(&self) -> (text: String)
        ensures
            text@ == self.text(),
    {
        let mut text = String::new();
        self.push_text(&mut text);
        assert(text@ =~= self.text());
        text
    }
}

/// The outcome that a reply stands for. A server error (5xx) is transient,
/// a client error (4xx) is permanent, every other status is a success, and
/// so is no reply at all a permanent failure.
pub open spec fn outcome_of<R>(reply: Reply<R>) -> FetchOutcome<R> {
    match reply {
        Reply::NoResponse { detail } => FetchOutcome::PermanentFailure(Cause::Transport { detail }),
        Reply::Response { status, response } => {
            if server_error(status) {
                FetchOutcome::TransientFailure(Cause::Status { code: status })
            } else if client_error(status) {
                FetchOutcome::PermanentFailure(Cause::Status { code: status })
            } else {
                FetchOutcome::Success(response)
            }
        },
    }
}

/// Classifies the reply to one attempt.
pub fn classify<R>(reply: Reply<R>) -> (outcome: FetchOutcome<R>)
    ensures
        outcome == outcome_of(reply),
{
    match reply {
        Reply::NoResponse { detail } => FetchOutcome::PermanentFailure(Cause::Transport { detail }),
        Reply::Response { status, response } => {
            if is_server_error(status) {
                FetchOutcome::TransientFailure(Cause::Status { code: status })
            } else if is_client_error(status) {
                FetchOutcome::PermanentFailure(Cause::Status { code: status })
            } else {
                FetchOutcome::Success(response)
            }
        },
    }
}

/// Every status code has exactly one tag, and the tag goes by the code's
/// class alone: 5xx is transient, 4xx is permanent, and a status that
/// reports no error, 2xx and 3xx among them, is a success that carries the
/// response.
pub proof fn lemma_one_tag_per_status<R>(status: u16, response: R)
    ensures
        ({
            let outcome = outcome_of(Reply::Response { status, response });
            &&& outcome is Success <==> !client_error(status) && !server_error(status)
            &&& outcome is PermanentFailure <==> client_error(status)
            &&& outcome is TransientFailure <==> server_error(status)
            &&& 200 <= status < 400 ==> outcome == FetchOutcome::Success(response)
            &&& client_error(status) ==> outcome == FetchOutcome::<R>::PermanentFailure(
                Cause::Status { code: status },
            )
            &&& server_error(status) ==> outcome == FetchOutcome::<R>::TransientFailure(
                Cause::Status { code: status },
            )
            &&& !(client_error(status) && server_error(status))
        }),
{
}

} // verus!
