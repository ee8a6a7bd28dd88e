//! The hand-off between the capture side and the processing loop: a bounded
//! first-in first-out queue whose producer never waits.
use std::collections::VecDeque;
use vstd::prelude::*;

verus! {

/// What the consumer finds when it looks into the queue.
#[derive(Debug)]
pub enum Received<T> {
    /// The oldest chunk not yet taken.
    Chunk(T),
    /// Nothing is waiting, but the producer is still there.
    Empty,
    /// Nothing is waiting and the producer has gone: nothing more will come.
    Disconnected,
}

/// A single-producer, single-consumer queue of chunks. A chunk that the
/// queue refuses (it is full, or the consumer has gone) is dropped by the
/// producer; an accepted chunk is handed out exactly once, in order.
pub struct TransferQueue<T> {
    items: VecDeque<T>,
    capacity: usize,
    producer_gone: bool,
    consumer_gone: bool,
    accepted: Ghost<Seq<T>>,
    delivered: Ghost<Seq<T>>,
}

impl<T> TransferQueue<T> {
    /// Chunks accepted and not yet taken, oldest first.
    pub closed spec fn pending(&self) -> Seq<T> {
        self.items@
    }

    /// Every chunk the queue has accepted, in order.
    pub closed spec fn accepted(&self) -> Seq<T> {
        self.accepted@
    }

    /// Every chunk the consumer has taken, in order.
    pub closed spec fn delivered(&self) -> Seq<T> {
        self.delivered@
    }

    pub closed spec fn spec_capacity(&self) -> nat {
        self.capacity as nat
    }

    pub closed spec fn spec_producer_gone(&self) -> bool {
        self.producer_gone
    }

    pub closed spec fn spec_consumer_gone(&self) -> bool {
        self.consumer_gone
    }

    /// What was accepted is what was taken followed by what still waits,
    /// and no more waits than the capacity.
    pub open spec fn wf(&self) -> bool {
        &&& self.accepted() == self.delivered() + self.pending()
        &&& self.pending().len() <= self.spec_capacity()
    }

    /// An open queue that holds at most `capacity` chunks at a time.
    pub fn new(capacity: usize) -> (q: TransferQueue<T>)
        ensures
            q.wf(),
            q.pending() == Seq::<T>::empty(),
            q.accepted() == Seq::<T>::empty(),
            q.delivered() == Seq::<T>::empty(),
            q.spec_capacity() == capacity,
            !q.spec_producer_gone(),
            !q.spec_consumer_gone(),
    {
        TransferQueue {
            items: VecDeque::new(),
            capacity,
            producer_gone: false,
            consumer_gone: false,
            accepted: Ghost(Seq::empty()),
            delivered: Ghost(Seq::empty()),
        }
    }

    /// Offers `chunk` without waiting. It is accepted, and `true` returned,
    /// exactly when the consumer is still there and the queue is not full;
    /// otherwise the queue is unchanged and the chunk is dropped.
    pub fn send(&mut self, chunk: T) -> (ok: bool)
        requires
            old(self).wf(),
        ensures
            final(self).wf(),
            ok == (!old(self).spec_consumer_gone() && old(self).pending().len()
                < old(self).spec_capacity()),
            ok ==> final(self).pending() == old(self).pending().push(chunk),
            ok ==> final(self).accepted() == old(self).accepted().push(chunk),
            !ok ==> final(self).pending() == old(self).pending(),
            !ok ==> final(self).accepted() == old(self).accepted(),
            final(self).delivered() == old(self).delivered(),
            final(self).spec_capacity() == old(self).spec_capacity(),
            final(self).spec_producer_gone() == old(self).spec_producer_gone(),
            final(self).spec_consumer_gone() == old(self).spec_consumer_gone(),
    {
        if self.consumer_gone || self.items.len() >= self.capacity {
            return false;
        }
        proof {
            self.accepted@ = self.accepted@.push(chunk);
            assert(self.accepted@ =~= self.delivered@ + self.items@.push(chunk));
        }
        self.items.push_back(chunk);
        true
    }

    /// Takes the oldest waiting chunk without waiting. `Disconnected` comes
    /// only once every accepted chunk has been taken and the producer has
    /// gone; `Empty` when nothing waits but the producer is still there.
    pub fn try_receive(&mut self) -> (r: Received<T>)
        requires
            old(self).wf(),
        ensures
            final(self).wf(),
            final(self).accepted() == old(self).accepted(),
            final(self).spec_capacity() == old(self).spec_capacity(),
            final(self).spec_producer_gone() == old(self).spec_producer_gone(),
            final(self).spec_consumer_gone() == old(self).spec_consumer_gone(),
            old(self).pending().len() > 0 ==> r == Received::Chunk(old(self).pending()[0])
                && final(self).pending() == old(self).pending().drop_first()
                && final(self).delivered() == old(self).delivered().push(old(self).pending()[0]),
            old(self).pending().len() == 0 ==> final(self).pending() == old(self).pending()
                && final(self).delivered() == old(self).delivered(),
            old(self).pending().len() == 0 && old(self).spec_producer_gone() ==> r
                is Disconnected,
            old(self).pending().len() == 0 && !old(self).spec_producer_gone() ==> r is Empty,
    {
        match self.items.pop_front() {
            Some(chunk) => {
                proof {
                    self.delivered@ = self.delivered@.push(chunk);
                    assert(self.accepted@ =~= self.delivered@ + self.items@);
                }
                Received::Chunk(chunk)
            },
            None => {
                if self.producer_gone {
                    Received::Disconnected
                } else {
                    Received::Empty
                }
            },
        }
    }

    /// The producer leaves; what it already sent can still be taken.
    pub fn close_producer(&mut self)
        requires
            old(self).wf(),
        ensures
            final(self).wf(),
            final(self).spec_producer_gone(),
            final(self).spec_consumer_gone() == old(self).spec_consumer_gone(),
            final(self).pending() == old(self).pending(),
            final(self).accepted() == old(self).accepted(),
            final(self).delivered() == old(self).delivered(),
            final(self).spec_capacity() == old(self).spec_capacity(),
    {
        self.producer_gone = true;
    }

    /// The consumer leaves; later chunks are refused.
    pub fn close_consumer(&mut self)
        requires
            old(self).wf(),
        ensures
            final(self).wf(),
            final(self).spec_consumer_gone(),
            final(self).spec_producer_gone() == old(self).spec_producer_gone(),
            final(self).pending() == old(self).pending(),
            final(self).accepted() == old(self).accepted(),
            final(self).delivered() == old(self).delivered(),
            final(self).spec_capacity() == old(self).spec_capacity(),
    {
        self.consumer_gone = true;
    }

    /// Number of chunks waiting.
    pub fn len(&self) -> (r: usize)
        ensures
            r == self.pending().len(),
    {
        self.items.len()
    }
}

/// Number of samples in a sequence of chunks.
pub open spec fn total_samples<S>(chunks: Seq<Vec<S>>) -> nat
    decreases chunks.len(),
{
    if chunks.len() == 0 {
        0
    } else {
        total_samples(chunks.drop_last()) + chunks.last()@.len()
    }
}

/// Counting samples distributes over concatenation.
pub proof fn lemma_total_samples_concat<S>(a: Seq<Vec<S>>, b: Seq<Vec<S>>)
    ensures
        total_samples(a + b) == total_samples(a) + total_samples(b),
    decreases b.len(),
{
    if b.len() == 0 {
        assert(a + b =~= a);
    } else {
        lemma_total_samples_concat(a, b.drop_last());
        assert((a + b).drop_last() =~= a + b.drop_last());
    }
}

/// No sample is lost or duplicated in transit: the samples taken by the
/// consumer plus those still waiting are exactly the samples accepted from
/// the producer, so once nothing waits (as when `Disconnected` is reported)
/// the consumer has received every accepted sample.
pub proof fn lemma_samples_conserved<S>(q: &TransferQueue<Vec<S>>)
    requires
        q.wf(),
    ensures
        total_samples(q.delivered()) + total_samples(q.pending()) == total_samples(q.accepted()),
        q.pending().len() == 0 ==> total_samples(q.delivered()) == total_samples(q.accepted()),
{
    lemma_total_samples_concat(q.delivered(), q.pending());
    if q.pending().len() == 0 {
        assert(total_samples(q.pending()) == 0);
    }
}

} // verus!
