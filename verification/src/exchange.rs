//! Interpretation of one WHIP exchange's outcome.
//!
//! The HTTP POST itself is network I/O and is carried out by the caller;
//! this module fixes, for every possible outcome, which answer or
//! [`ExchangeError`] the session sees. Success is any 2xx status whose body
//! reads as SDP answer text; nothing is ever retried.

use vstd::prelude::*;
use vstd::string::*;

use crate::error::ExchangeError;

verus! {

/// What the caller observed when performing the HTTP POST.
#[derive(Debug, Clone)]
pub enum ExchangeOutcome {
    /// The endpoint answered with this status and body.
    Response { status: u16, body: String },
    /// The request could not be carried out (connect or transfer failure).
    TransportFailure,
}

/// A 2xx HTTP status.
pub open spec fn is_success_status(status: u16) -> bool {
    200 <= status < 300
}

/// The body reads as SDP answer text: SDP always opens with a `v=` line.
pub open spec fn valid_answer(body: Seq<char>) -> bool {
    body.len() >= 2 && body[0] == 'v' && body[1] == '='
}

/// The result a session sees for a given exchange outcome.
pub open spec fn outcome_result(outcome: ExchangeOutcome) -> Result<Seq<char>, ExchangeError> {
    match outcome {
        ExchangeOutcome::Response { status, body } => if !is_success_status(status) {
            Err(ExchangeError::Rejected(status))
        } else if valid_answer(body@) {
            Ok(body@)
        } else {
            Err(ExchangeError::MalformedAnswer)
        },
        ExchangeOutcome::TransportFailure => Err(ExchangeError::Transport),
    }
}

/// Whether `body` reads as SDP answer text.
pub fn answer_is_valid(body: &str) -> (b: bool)
    ensures
        b == valid_answer(body@),
{
    if body.unicode_len() < 2 {
        false
    } else {
        body.get_char(0) == 'v' && body.get_char(1) == '='
    }
}

/// Map one exchange outcome to the answer or the error the session sees.
pub fn interpret_outcome(outcome: ExchangeOutcome) -> (r: Result<String, ExchangeError>)
    ensures
        match r {
            Ok(answer) => outcome_result(outcome) == Ok::<Seq<char>, ExchangeError>(answer@),
            Err(e) => outcome_result(outcome) == Err::<Seq<char>, ExchangeError>(e),
        },
{
    match outcome {
        ExchangeOutcome::Response { status, body } => {
            if status < 200 || status >= 300 {
                Err(ExchangeError::Rejected(status))
            } else if answer_is_valid(body.as_str()) {
                Ok(body)
            } else {
                Err(ExchangeError::MalformedAnswer)
            }
        },
        ExchangeOutcome::TransportFailure => Err(ExchangeError::Transport),
    }
}

} // verus!
