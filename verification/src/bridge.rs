use vstd::prelude::*;

use crate::message::LauMessage;

verus! {

/// Per-queue capacity of a bridge made by `LauBridge::new`.
pub const DEFAULT_QUEUE_CAPACITY: usize = 1024;

/// A bounded queue after one more message arrives: the message is appended
/// when the queue has room, and dropped otherwise.
pub open spec fn enqueue<M>(queue: Seq<M>, capacity: nat, msg: M) -> Seq<M> {
    if queue.len() < capacity {
        queue.push(msg)
    } else {
        queue
    }
}

/// A bounded queue after the messages `msgs` arrive one by one, in order.
pub open spec fn enqueue_all<M>(queue: Seq<M>, capacity: nat, msgs: Seq<M>) -> Seq<M>
    decreases msgs.len(),
{
    if msgs.len() == 0 {
        queue
    } else {
        enqueue(enqueue_all(queue, capacity, msgs.drop_last()), capacity, msgs.last())
    }
}

/// Bidirectional bridge between external systems and rooms: two bounded
/// FIFO queues of messages, one per direction.
#[derive(Debug)]
pub struct LauBridge {
    incoming: Vec<LauMessage>,
    outgoing: Vec<LauMessage>,
    capacity: usize,
}

impl LauBridge {
    #[verifier::type_invariant]
    spec fn within_capacity(self) -> bool {
        &&& self.incoming.len() <= self.capacity
        &&& self.outgoing.len() <= self.capacity
    }

    /// Messages waiting to enter the room, oldest first.
    pub closed spec fn incoming_queue(&self) -> Seq<LauMessage> {
        self.incoming@
    }

    /// Messages waiting to leave the room, oldest first.
    pub closed spec fn outgoing_queue(&self) -> Seq<LauMessage> {
        self.outgoing@
    }

    /// The most messages that each queue holds.
    pub closed spec fn capacity(&self) -> nat {
        self.capacity as nat
    }

    /// Create a new bridge with the default queue capacity.
    pub fn new() -> (bridge: Self)
        ensures
            bridge.incoming_queue() == Seq::<LauMessage>::empty(),
            bridge.outgoing_queue() == Seq::<LauMessage>::empty(),
            bridge.capacity() == DEFAULT_QUEUE_CAPACITY,
    {
        Self::with_capacity(DEFAULT_QUEUE_CAPACITY)
    }

    /// Create a bridge with a custom per-queue capacity.
    pub fn with_capacity(capacity: usize) -> (bridge: Self)
        ensures
            bridge.incoming_queue() == Seq::<LauMessage>::empty(),
            bridge.outgoing_queue() == Seq::<LauMessage>::empty(),
            bridge.capacity() == capacity,
    {
        LauBridge { incoming: Vec::new(), outgoing: Vec::new(), capacity }
    }

    /// External event -> internal room event. The message is queued when
    /// the incoming queue has room and dropped otherwise.
    pub fn port_in(&mut self, msg: LauMessage)
        ensures
            final(self).incoming_queue() == enqueue(
                old(self).incoming_queue(),
                old(self).capacity(),
                msg,
            ),
            final(self).outgoing_queue() == old(self).outgoing_queue(),
            final(self).capacity() == old(self).capacity(),
            final(self).incoming_queue().len() <= final(self).capacity(),
    {
        proof {
            use_type_invariant(&*self);
        }
        if self.incoming.len() < self.capacity {
            let mut queue: Vec<LauMessage> = Vec::new();
            std::mem::swap(&mut queue, &mut self.incoming);
            queue.push(msg);
            self.incoming = queue;
        }
    }

    /// Internal room event -> external game event. The message is queued
    /// when the outgoing queue has room and dropped otherwise.
    pub fn port_out(&mut self, msg: LauMessage)
        ensures
            final(self).outgoing_queue() == enqueue(
                old(self).outgoing_queue(),
                old(self).capacity(),
                msg,
            ),
            final(self).incoming_queue() == old(self).incoming_queue(),
            final(self).capacity() == old(self).capacity(),
            final(self).outgoing_queue().len() <= final(self).capacity(),
    {
        proof {
            use_type_invariant(&*self);
        }
        if self.outgoing.len() < self.capacity {
            let mut queue: Vec<LauMessage> = Vec::new();
            std::mem::swap(&mut queue, &mut self.outgoing);
            queue.push(msg);
            self.outgoing = queue;
        }
    }

    /// Drain and return all pending outgoing messages, oldest first.
    pub fn flush_outgoing(&mut self) -> (msgs: Vec<LauMessage>)
        ensures
            msgs@ == old(self).outgoing_queue(),
            final(self).outgoing_queue() == Seq::<LauMessage>::empty(),
            final(self).incoming_queue() == old(self).incoming_queue(),
            final(self).capacity() == old(self).capacity(),
    {
        proof {
            use_type_invariant(&*self);
        }
        let mut msgs: Vec<LauMessage> = Vec::new();
        std::mem::swap(&mut msgs, &mut self.outgoing);
        msgs
    }

    /// Drain and return all pending incoming messages, oldest first.
    pub fn flush_incoming(&mut self) -> (msgs: Vec<LauMessage>)
        ensures
            msgs@ == old(self).incoming_queue(),
            final(self).incoming_queue() == Seq::<LauMessage>::empty(),
            final(self).outgoing_queue() == old(self).outgoing_queue(),
            final(self).capacity() == old(self).capacity(),
    {
        proof {
            use_type_invariant(&*self);
        }
        let mut msgs: Vec<LauMessage> = Vec::new();
        std::mem::swap(&mut msgs, &mut self.incoming);
        msgs
    }

    /// Current number of queued incoming messages.
    pub fn incoming_len(&self) -> (n: usize)
        ensures
            n == self.incoming_queue().len(),
            n <= self.capacity(),
    {
        proof {
            use_type_invariant(self);
        }
        self.incoming.len()
    }

    /// Current number of queued outgoing messages.
    pub fn outgoing_len(&self) -> (n: usize)
        ensures
            n == self.outgoing_queue().len(),
            n <= self.capacity(),
    {
        proof {
            use_type_invariant(self);
        }
        self.outgoing.len()
    }
}

impl Default for LauBridge {
    fn default() -> (bridge: Self)
        ensures
            bridge.incoming_queue() == Seq::<LauMessage>::empty(),
            bridge.outgoing_queue() == Seq::<LauMessage>::empty(),
            bridge.capacity() == DEFAULT_QUEUE_CAPACITY,
    {
        Self::new()
    }
}

} // verus!
