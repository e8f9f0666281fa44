//! Actions: the outward effects the controller asks its caller to perform.
//!
//! The controller itself never touches the network, a timer or the owning
//! media element. Every function that advances the controller returns the
//! actions the surrounding process must carry out.

use vstd::prelude::*;

use crate::error::{ExchangeError, ProtocolViolation};

verus! {

/// The fallback gather timer delay, in milliseconds.
pub const GATHER_TIMEOUT_MS: u64 = 500;

/// One effect the caller must perform on the controller's behalf.
#[derive(Debug, Clone)]
pub enum Action {
    /// Arm a timer; after `delay_ms` milliseconds hand a gather-timeout
    /// event for `id` back to the controller.
    StartTimer { id: String, delay_ms: u64 },
    /// Perform the single HTTP POST of `body` (content-type
    /// `application/sdp`) to the configured endpoint, for session `id`.
    Exchange { id: String, body: String },
    /// Tell the owning element that a session is beginning.
    AddConsumer { id: String },
    /// Deliver the SDP answer of session `id` to the owning element.
    DeliverAnswer { id: String, answer: String },
    /// Report a failed exchange for session `id` to the owning element.
    ReportError { id: String, error: ExchangeError },
    /// Log a dropped fragment of session `id`; never fatal.
    LogViolation { id: String, violation: ProtocolViolation },
}

/// The mathematical value of an [`Action`].
pub enum ActionModel {
    StartTimer { id: Seq<char>, delay_ms: u64 },
    Exchange { id: Seq<char>, body: Seq<char> },
    AddConsumer { id: Seq<char> },
    DeliverAnswer { id: Seq<char>, answer: Seq<char> },
    ReportError { id: Seq<char>, error: ExchangeError },
    LogViolation { id: Seq<char>, violation: ProtocolViolation },
}

impl View for Action {
    type V = ActionModel;

    open spec fn view(&self) -> ActionModel {
        match self {
            Action::StartTimer { id, delay_ms } => ActionModel::StartTimer {
                id: id@,
                delay_ms: *delay_ms,
            },
            Action::Exchange { id, body } => ActionModel::Exchange { id: id@, body: body@ },
            Action::AddConsumer { id } => ActionModel::AddConsumer { id: id@ },
            Action::DeliverAnswer { id, answer } => ActionModel::DeliverAnswer {
                id: id@,
                answer: answer@,
            },
            Action::ReportError { id, error } => ActionModel::ReportError {
                id: id@,
                error: *error,
            },
            Action::LogViolation { id, violation } => ActionModel::LogViolation {
                id: id@,
                violation: *violation,
            },
        }
    }
}

/// The actions of `acts`, as mathematical values, in order.
pub open spec fn actions_model(acts: Seq<Action>) -> Seq<ActionModel> {
    acts.map_values(|a: Action| a@)
}

} // verus!
