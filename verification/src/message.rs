//! The messages carried by the controller mailbox.

use vstd::prelude::*;

verus! {

/// One event for the offer aggregator, queued through the mailbox.
#[derive(Debug, Clone)]
pub enum WhipMessage {
    /// One trickled ICE candidate for the session `id`.
    Ice { id: String, candidate: String, candix: u32 },
    /// The local SDP offer for the session `id`, emitted once per session.
    Sdp { id: String, sdp: String },
    /// The session `id` is being torn down.
    ConsumerRemoved { id: String },
    /// Synthetic event from the fallback gather timer of session `id`.
    GatherTimeout { id: String },
}

/// The mathematical value of a [`WhipMessage`]: the same variants over
/// character sequences.
pub enum MessageModel {
    Ice { id: Seq<char>, candidate: Seq<char>, candix: u32 },
    Sdp { id: Seq<char>, sdp: Seq<char> },
    ConsumerRemoved { id: Seq<char> },
    GatherTimeout { id: Seq<char> },
}

impl View for WhipMessage {
    type V = MessageModel;

    open spec fn view(&self) -> MessageModel {
        match self {
            WhipMessage::Ice { id, candidate, candix } => MessageModel::Ice {
                id: id@,
                candidate: candidate@,
                candix: *candix,
            },
            WhipMessage::Sdp { id, sdp } => MessageModel::Sdp { id: id@, sdp: sdp@ },
            WhipMessage::ConsumerRemoved { id } => MessageModel::ConsumerRemoved { id: id@ },
            WhipMessage::GatherTimeout { id } => MessageModel::GatherTimeout { id: id@ },
        }
    }
}

/// The session a message belongs to.
pub open spec fn message_session(m: MessageModel) -> Seq<char> {
    match m {
        MessageModel::Ice { id, .. } => id,
        MessageModel::Sdp { id, .. } => id,
        MessageModel::ConsumerRemoved { id } => id,
        MessageModel::GatherTimeout { id } => id,
    }
}

} // verus!
