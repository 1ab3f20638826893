//! The bounded data channel between workers and the consumer, modeled as a
//! first-in first-out queue of draw requests with a fixed capacity. The
//! bound is the pipeline's sole backpressure mechanism.

use vstd::prelude::*;

use crate::pixel::DrawRequest;

verus! {

/// A bounded FIFO queue of draw requests. Its view is the sequence of
/// pending requests, oldest first; the length never exceeds the capacity.
pub struct ChannelQueue {
    pub items: Vec<DrawRequest>,
    pub capacity: usize,
}

impl View for ChannelQueue {
    type V = Seq<DrawRequest>;

    open spec fn view(&self) -> Seq<DrawRequest> {
        self.items@
    }
}

impl ChannelQueue {
    /// The pending requests never outgrow the capacity.
    pub open spec fn wf(self) -> bool {
        self.items@.len() <= self.capacity
    }

    /// The fixed capacity the queue was created with.
    pub open spec fn cap(self) -> int {
        self.capacity as int
    }

    /// An empty queue with the given capacity.
    pub fn new(capacity: usize) -> (q: ChannelQueue)
        ensures
            q.wf(),
            q@ =~= Seq::<DrawRequest>::empty(),
            q.cap() == capacity,
    {
        ChannelQueue { items: Vec::new(), capacity }
    }

    /// How many requests are pending.
    pub fn len(&self) -> (n: usize)
        ensures
            n == self@.len(),
    {
        self.items.len()
    }

    /// Whether the queue holds no request.
    pub fn is_empty(&self) -> (b: bool)
        ensures
            b <==> self@.len() == 0,
    {
        self.items.len() == 0
    }

    /// The capacity the queue was created with.
    pub fn capacity(&self) -> (c: usize)
        ensures
            c == self.cap(),
    {
        self.capacity
    }

    /// Enqueues one request unless the queue is full: `true` means the
    /// request was accepted at the tail, `false` that the queue is at
    /// capacity and nothing changed.
    pub fn try_send(&mut self, req: DrawRequest) -> (accepted: bool)
        requires
            old(self).wf(),
        ensures
            final(self).wf(),
            final(self).cap() == old(self).cap(),
            accepted <==> old(self)@.len() < old(self).cap(),
            accepted ==> final(self)@ =~= old(self)@.push(req),
            !accepted ==> *final(self) == *old(self),
    {
        if self.items.len() < self.capacity {
            self.items.push(req);
            true
        } else {
            false
        }
    }

    /// Dequeues the oldest request, `None` when the queue is empty.
    pub fn try_recv(&mut self) -> (r: Option<DrawRequest>)
        requires
            old(self).wf(),
        ensures
            final(self).wf(),
            final(self).cap() == old(self).cap(),
            r is Some <==> old(self)@.len() > 0,
            r matches Some(req) ==> req == old(self)@[0] && final(self)@ =~= old(self)@.skip(1),
            r is None ==> *final(self) == *old(self),
    {
        if self.items.len() > 0 {
            let req = self.items.remove(0);
            Some(req)
        } else {
            None
        }
    }

    /// Drains and discards everything pending, reporting how many requests
    /// were thrown away.
    pub fn purge(&mut self) -> (discarded: usize)
        requires
            old(self).wf(),
        ensures
            final(self).wf(),
            final(self).cap() == old(self).cap(),
            discarded == old(self)@.len(),
            final(self)@ =~= Seq::<DrawRequest>::empty(),
    {
        let n = self.items.len();
        self.items.clear();
        n
    }
}

} // verus!
