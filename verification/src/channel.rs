//! The bounded FIFO queue that carries stream traffic.
//!
//! Every hop of a stream — the in-process queue of an intra-node edge, the
//! work queue drained by a data-sender worker, the per-peer pipe itself —
//! behaves as one of these queues: items leave in the order they entered,
//! none is duplicated and none is reordered. The queue keeps a ghost
//! history of everything accepted and everything delivered, so that the
//! order guarantee is a proved consequence of its invariant rather than a
//! claim about the implementation.

use vstd::prelude::*;
use crate::errors::{CommunicationError, TryRecvError};

verus! {

/// Mathematical state of a stream queue: the items in flight, the bound,
/// whether the producer side is closed, and the two histories.
#[verifier::ext_equal]
pub ghost struct StreamChannelView<T> {
    /// Items accepted but not yet delivered, oldest first.
    pub queue: Seq<T>,
    /// Capacity of the queue.
    pub capacity: int,
    /// Whether the channel has been closed.
    pub closed: bool,
    /// Every item ever accepted, in acceptance order.
    pub history: Seq<T>,
    /// Every item ever delivered, in delivery order.
    pub delivered: Seq<T>,
}

impl<T> StreamChannelView<T> {
    /// The channel's invariant: what was delivered followed by what is in
    /// flight is exactly what was accepted, and the queue respects its
    /// bound.
    pub open spec fn wf(self) -> bool {
        &&& self.delivered + self.queue == self.history
        &&& self.queue.len() <= self.capacity
    }
}

/// A bounded in-process FIFO queue between one producer side and one
/// consumer side of a stream.
pub struct StreamChannel<T> {
    queue: Vec<T>,
    capacity: usize,
    closed: bool,
    history: Ghost<Seq<T>>,
    delivered: Ghost<Seq<T>>,
}

impl<T> View for StreamChannel<T> {
    type V = StreamChannelView<T>;

    closed spec fn view(&self) -> StreamChannelView<T> {
        StreamChannelView {
            queue: self.queue@,
            capacity: self.capacity as int,
            closed: self.closed,
            history: self.history@,
            delivered: self.delivered@,
        }
    }
}

impl<T> StreamChannel<T> {
    /// A fresh open queue with the given bound and empty histories.
    pub fn new(capacity: usize) -> (c: Self)
        ensures
            c@.wf(),
            c@.queue == Seq::<T>::empty(),
            c@.capacity == capacity as int,
            !c@.closed,
            c@.history == Seq::<T>::empty(),
            c@.delivered == Seq::<T>::empty(),
    {
        let c = StreamChannel {
            queue: Vec::new(),
            capacity,
            closed: false,
            history: Ghost(Seq::empty()),
            delivered: Ghost(Seq::empty()),
        };
        proof {
            assert(c@.delivered + c@.queue =~= c@.history);
        }
        c
    }

    /// Offers an item to the queue without blocking. A closed channel
    /// refuses with `Disconnected`; a full one refuses with `NoCapacity`
    /// and the caller may retry; otherwise the item is accepted at the
    /// back and enters the history.
    pub fn try_send(&mut self, value: T) -> (r: Result<(), CommunicationError>)
        requires
            old(self)@.wf(),
        ensures
            final(self)@.wf(),
            final(self)@.capacity == old(self)@.capacity,
            final(self)@.closed == old(self)@.closed,
            final(self)@.delivered == old(self)@.delivered,
            if old(self)@.closed {
                &&& r == Err::<(), CommunicationError>(CommunicationError::Disconnected)
                &&& final(self)@ == old(self)@
            } else if old(self)@.queue.len() == old(self)@.capacity {
                &&& r == Err::<(), CommunicationError>(CommunicationError::NoCapacity)
                &&& final(self)@ == old(self)@
            } else {
                &&& r == Ok::<(), CommunicationError>(())
                &&& final(self)@.queue == old(self)@.queue.push(value)
                &&& final(self)@.history == old(self)@.history.push(value)
            },
    {
        if self.closed {
            Err(CommunicationError::Disconnected)
        } else if self.queue.len() == self.capacity {
            Err(CommunicationError::NoCapacity)
        } else {
            self.queue.push(value);
            proof {
                self.history@ = self.history@.push(value);
                assert(self@.delivered + self@.queue =~= self@.history);
            }
            Ok(())
        }
    }

    /// Takes the oldest item without blocking. An empty open channel
    /// reports `Empty`; an empty closed one reports `Disconnected`;
    /// otherwise the head leaves the queue and enters the delivery
    /// history.
    pub fn try_recv(&mut self) -> (r: Result<T, TryRecvError>)
        requires
            old(self)@.wf(),
        ensures
            final(self)@.wf(),
            final(self)@.capacity == old(self)@.capacity,
            final(self)@.closed == old(self)@.closed,
            final(self)@.history == old(self)@.history,
            if old(self)@.queue.len() > 0 {
                &&& r == Ok::<T, TryRecvError>(old(self)@.queue[0])
                &&& final(self)@.queue == old(self)@.queue.drop_first()
                &&& final(self)@.delivered == old(self)@.delivered.push(old(self)@.queue[0])
            } else {
                &&& final(self)@ == old(self)@
                &&& r == Err::<T, TryRecvError>(
                    if old(self)@.closed {
                        TryRecvError::Disconnected
                    } else {
                        TryRecvError::Empty
                    },
                )
            },
    {
        if self.queue.len() > 0 {
            let value = self.queue.remove(0);
            proof {
                self.delivered@ = self.delivered@.push(value);
                assert(self@.delivered + self@.queue =~= self@.history);
            }
            Ok(value)
        } else if self.closed {
            Err(TryRecvError::Disconnected)
        } else {
            Err(TryRecvError::Empty)
        }
    }

    /// Closes the producer side; items already in flight stay readable.
    pub fn close(&mut self)
        requires
            old(self)@.wf(),
        ensures
            final(self)@.wf(),
            final(self)@ == (StreamChannelView { closed: true, ..old(self)@ }),
    {
        self.closed = true;
    }

    /// Number of items in flight.
    pub fn len(&self) -> (n: usize)
        ensures
            n as int == self@.queue.len(),
    {
        self.queue.len()
    }

    /// Whether the channel has been closed.
    pub fn is_closed(&self) -> (b: bool)
        ensures
            b == self@.closed,
    {
        self.closed
    }
}

/// Delivery is a prefix of acceptance: the consumer sees exactly the
/// items the producer published, in publication order, with no
/// duplication, reordering or loss ahead of the frontier. This is the
/// order guarantee of an intra-node stream edge.
pub proof fn lemma_fifo_delivery<T>(v: StreamChannelView<T>)
    requires
        v.wf(),
    ensures
        v.delivered == v.history.take(v.delivered.len() as int),
        forall|i: int| 0 <= i < v.delivered.len() ==> v.delivered[i] == v.history[i],
{
    assert(v.delivered =~= v.history.take(v.delivered.len() as int));
}

/// FIFO hops compose: when a relay forwards one queue's deliveries into a
/// second queue in order, the far consumer still sees a prefix of the
/// original publications, in publication order. An inter-node stream edge
/// — producer queue, peer-pair pipe, receiver queue — is such a chain, so
/// per-pipe FIFO carries the end-to-end guarantee.
pub proof fn lemma_relay_preserves_fifo<T>(up: StreamChannelView<T>, down: StreamChannelView<T>)
    requires
        up.wf(),
        down.wf(),
        down.history == up.delivered,
    ensures
        down.delivered == up.history.take(down.delivered.len() as int),
        forall|i: int| 0 <= i < down.delivered.len() ==> down.delivered[i] == up.history[i],
{
    lemma_fifo_delivery(up);
    lemma_fifo_delivery(down);
    assert(down.delivered =~= up.history.take(down.delivered.len() as int));
}

} // verus!
