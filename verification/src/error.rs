//! Error taxonomy of the signalling controller.

use vstd::prelude::*;

verus! {

/// Why an enqueue into the controller mailbox was refused.
#[derive(Clone, Copy, Debug, PartialEq, Eq, Structural)]
pub enum DeliveryError {
    /// The mailbox is absent or has been closed by `stop`.
    Closed,
    /// The mailbox holds as many messages as its bound allows.
    Full,
}

/// Why a single WHIP exchange failed.
#[derive(Clone, Copy, Debug, PartialEq, Eq, Structural)]
pub enum ExchangeError {
    /// The HTTP request could not be carried out at all.
    Transport,
    /// The endpoint answered with a non-success HTTP status.
    Rejected(u16),
    /// The endpoint answered with a success status but the body is not an
    /// SDP answer.
    MalformedAnswer,
}

/// A fragment that breaks the signalling protocol; it is reported and
/// dropped, never fatal.
#[derive(Clone, Copy, Debug, PartialEq, Eq, Structural)]
pub enum ProtocolViolation {
    /// A second SDP offer arrived for a session that already received one.
    DuplicateOffer,
    /// A fragment arrived for a session whose offer was already sent.
    LateFragment,
}

} // verus!
