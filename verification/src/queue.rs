//! The bounded outbound queue.
//!
//! The queue is the sole hand-off point between the producer (console lines)
//! and the transport. It is first-in first-out, holds at most its capacity,
//! and refuses new messages once its receiving end has gone away. A full
//! queue makes the producer wait; it never drops or reorders a message.

use vstd::prelude::*;
use crate::messages::{models_of, ChatMessage, ChatMessageModel};

verus! {

/// What one enqueue attempt came to.
#[derive(PartialEq, Eq, Structural, Clone, Copy, Debug)]
pub enum EnqueueOutcome {
    /// The message was appended to the pending messages.
    Accepted,
    /// The queue already holds as many messages as its capacity: the
    /// producer must suspend and try the same message again later.
    WouldBlock,
    /// The receiving end has gone away; nothing was enqueued.
    Closed,
}

/// A bounded first-in first-out queue of outbound chat messages.
pub struct OutboundQueue {
    items: Vec<ChatMessage>,
    capacity: usize,
    closed: bool,
}

impl OutboundQueue {
    /// The messages pending in the queue, oldest first.
    pub closed spec fn pending(&self) -> Seq<ChatMessageModel> {
        models_of(self.items@)
    }

    /// The fixed capacity the queue was built with.
    pub closed spec fn cap(&self) -> nat {
        self.capacity as nat
    }

    /// Whether the receiving end has gone away.
    pub closed spec fn is_closed(&self) -> bool {
        self.closed
    }

    /// Well-formedness: the capacity is positive and never exceeded.
    pub open spec fn wf(&self) -> bool {
        &&& self.cap() >= 1
        &&& self.pending().len() <= self.cap()
    }

    /// Builds an empty, open queue of the given capacity.
    pub fn new(capacity: usize) -> (q: OutboundQueue)
        requires
            capacity >= 1,
        ensures
            q.wf(),
            q.pending() == Seq::<ChatMessageModel>::empty(),
            q.cap() == capacity as nat,
            !q.is_closed(),
    {
        let q = OutboundQueue { items: Vec::new(), capacity, closed: false };
        proof {
            assert(q.pending() =~= Seq::<ChatMessageModel>::empty());
        }
        q
    }

    /// Attempts to place one message at the back of the queue.
    ///
    /// A closed queue refuses it; a full queue makes the producer wait; an
    /// open queue with room appends it. In no case is a pending message
    /// dropped or reordered.
    pub fn try_enqueue(&mut self, message: ChatMessage) -> (outcome: EnqueueOutcome)
        requires
            old(self).wf(),
        ensures
            final(self).wf(),
            final(self).cap() == old(self).cap(),
            final(self).is_closed() == old(self).is_closed(),
            old(self).is_closed() ==> outcome == EnqueueOutcome::Closed && final(self).pending()
                == old(self).pending(),
            !old(self).is_closed() && old(self).pending().len() == old(self).cap() ==> outcome
                == EnqueueOutcome::WouldBlock && final(self).pending() == old(self).pending(),
            !old(self).is_closed() && old(self).pending().len() < old(self).cap() ==> outcome
                == EnqueueOutcome::Accepted && final(self).pending() == old(self).pending().push(message@),
    {
        if self.closed {
            EnqueueOutcome::Closed
        } else if self.items.len() == self.capacity {
            EnqueueOutcome::WouldBlock
        } else {
            let ghost before = self.pending();
            let ghost model = message@;
            self.items.push(message);
            proof {
                assert(self.pending() =~= before.push(model));
            }
            EnqueueOutcome::Accepted
        }
    }

    /// Removes and returns the oldest pending message, if any.
    pub fn dequeue(&mut self) -> (m: Option<ChatMessage>)
        requires
            old(self).wf(),
        ensures
            final(self).wf(),
            final(self).cap() == old(self).cap(),
            final(self).is_closed() == old(self).is_closed(),
            old(self).pending().len() == 0 ==> m is None && final(self).pending() == old(self).pending(),
            old(self).pending().len() > 0 ==> {
                &&& m is Some
                &&& m->0@ == old(self).pending()[0]
                &&& final(self).pending() == old(self).pending().drop_first()
            },
    {
        if self.items.len() == 0 {
            None
        } else {
            let ghost before = self.pending();
            let front = self.items.remove(0);
            proof {
                assert(self.pending() =~= before.drop_first());
            }
            Some(front)
        }
    }

    /// Marks the receiving end as gone: every later enqueue attempt is
    /// refused. The messages already pending are left in place.
    pub fn close(&mut self)
        requires
            old(self).wf(),
        ensures
            final(self).wf(),
            final(self).cap() == old(self).cap(),
            final(self).is_closed(),
            final(self).pending() == old(self).pending(),
    {
        self.closed = true;
    }

    /// How many messages are pending.
    pub fn len(&self) -> (n: usize)
        ensures
            n == self.pending().len(),
    {
        self.items.len()
    }

    /// The fixed capacity.
    pub fn capacity(&self) -> (n: usize)
        ensures
            n == self.cap(),
    {
        self.capacity
    }

    /// Whether the receiving end has gone away.
    pub fn closed(&self) -> (b: bool)
        ensures
            b == self.is_closed(),
    {
        self.closed
    }
}

/// Backpressure law: a well-formed queue never holds more pending messages
/// than its capacity, so a queue of capacity `K` accepts at most `K` pending
/// messages before the producer is made to wait.
pub proof fn lemma_pending_bounded(q: &OutboundQueue)
    requires
        q.wf(),
    ensures
        q.pending().len() <= q.cap(),
{
}

} // verus!
