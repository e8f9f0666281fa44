//! The bounded message queue owned by one signaller instance.
//!
//! The queue never silently drops a message: an enqueue is either accepted,
//! or refused with the reason ([`DeliveryError::Closed`] or
//! [`DeliveryError::Full`]). Closing the queue keeps the already accepted
//! messages, so they can still be drained in order.

use vstd::prelude::*;

use crate::error::DeliveryError;
use crate::message::{MessageModel, WhipMessage};

verus! {

/// A bounded FIFO of [`WhipMessage`]s with an explicit closed flag.
pub struct Mailbox {
    queue: Vec<WhipMessage>,
    capacity: usize,
    closed: bool,
}

impl Mailbox {
    /// The queued messages, oldest first.
    pub closed spec fn contents(&self) -> Seq<MessageModel> {
        self.queue@.map_values(|m: WhipMessage| m@)
    }

    /// The bound chosen at construction.
    pub closed spec fn capacity(&self) -> usize {
        self.capacity
    }

    /// Whether the queue refuses further enqueues.
    pub closed spec fn is_closed(&self) -> bool {
        self.closed
    }

    /// A fresh queue accepting up to `capacity` messages.
    pub fn new(capacity: usize) -> (r: Mailbox)
        requires
            capacity >= 1,
        ensures
            r.contents() =~= Seq::<MessageModel>::empty(),
            r.capacity() == capacity,
            !r.is_closed(),
    {
        Mailbox { queue: Vec::new(), capacity, closed: false }
    }

    /// How many messages are queued.
    pub fn len(&self) -> (n: usize)
        ensures
            n == self.contents().len(),
    {
        self.queue.len()
    }

    /// Enqueue one message; refused exactly when the queue is closed or at
    /// its bound.
    pub fn send(&mut self, m: WhipMessage) -> (r: Result<(), DeliveryError>)
        ensures
            final(self).capacity() == old(self).capacity(),
            final(self).is_closed() == old(self).is_closed(),
            old(self).is_closed() ==> r == Err::<(), DeliveryError>(DeliveryError::Closed)
                && final(self).contents() == old(self).contents(),
            !old(self).is_closed() && old(self).contents().len() >= old(self).capacity() ==> r
                == Err::<(), DeliveryError>(DeliveryError::Full) && final(self).contents() == old(
                self,
            ).contents(),
            !old(self).is_closed() && old(self).contents().len() < old(self).capacity() ==> r
                == Ok::<(), DeliveryError>(()) && final(self).contents() =~= old(
                self,
            ).contents().push(m@),
    {
        if self.closed {
            Err(DeliveryError::Closed)
        } else if self.queue.len() >= self.capacity {
            Err(DeliveryError::Full)
        } else {
            self.queue.push(m);
            Ok(())
        }
    }

    /// Close the queue: later enqueues fail, queued messages stay.
    pub fn close(&mut self)
        ensures
            final(self).is_closed(),
            final(self).contents() == old(self).contents(),
            final(self).capacity() == old(self).capacity(),
    {
        self.closed = true;
    }

    /// Dequeue the oldest message, if any.
    pub fn pop_front(&mut self) -> (r: Option<WhipMessage>)
        ensures
            final(self).capacity() == old(self).capacity(),
            final(self).is_closed() == old(self).is_closed(),
            old(self).contents().len() == 0 ==> r is None && final(self).contents() == old(
                self,
            ).contents(),
            old(self).contents().len() > 0 ==> r is Some && r->Some_0@ == old(
                self,
            ).contents().first() && final(self).contents() =~= old(self).contents().drop_first(),
    {
        if self.queue.len() == 0 {
            None
        } else {
            Some(self.queue.remove(0))
        }
    }
}

} // verus!
