//! The bounded first-in-first-out channels between the network task and the
//! interface task.
//!
//! Each direction of the chat pipeline is one bounded queue of capacity 32:
//! interface to network, and network to interface. A full queue never drops
//! a message; a send into a full queue is refused and hands the message
//! back, which is how the driver suspends the producing side until the
//! consumer drains at least one element.

use vstd::prelude::*;

verus! {

/// Capacity of each direction's queue.
pub const CHANNEL_CAPACITY: usize = 32;

/// A bounded first-in-first-out queue. The view is the sequence of queued
/// elements, oldest first; its length never exceeds the capacity.
pub struct BoundedQueue<T> {
    pub items: Vec<T>,
    pub capacity: usize,
}

impl<T> View for BoundedQueue<T> {
    type V = Seq<T>;

    open spec fn view(&self) -> Seq<T> {
        self.items@
    }
}

impl<T> BoundedQueue<T> {
    /// The queue's fixed capacity.
    pub open spec fn spec_capacity(&self) -> nat {
        self.capacity as nat
    }

    /// No more elements are queued than the capacity allows.
    pub open spec fn wf(&self) -> bool {
        self@.len() <= self.spec_capacity()
    }

    /// A send would be refused: the queue is at capacity.
    pub open spec fn spec_is_full(&self) -> bool {
        self@.len() == self.spec_capacity()
    }

    /// An empty queue with the given capacity.
    pub fn new(capacity: usize) -> (q: BoundedQueue<T>)
        ensures
            q.wf(),
            q@ =~= Seq::<T>::empty(),
            q.spec_capacity() == capacity,
    {
        BoundedQueue { items: Vec::new(), capacity }
    }

    /// Number of queued elements.
    pub fn len(&self) -> (n: usize)
        ensures
            n == self@.len(),
    {
        self.items.len()
    }

    /// Whether a send would currently be refused.
    pub fn is_full(&self) -> (b: bool)
        ensures
            b == self.spec_is_full(),
    {
        self.items.len() == self.capacity
    }

    /// Enqueue `value`, or hand it back unchanged when the queue is full.
    /// A full queue is left exactly as it was: backpressure, never loss.
    pub fn try_send(&mut self, value: T) -> (r: Result<(), T>)
        requires
            old(self).wf(),
        ensures
            final(self).wf(),
            final(self).spec_capacity() == old(self).spec_capacity(),
            !old(self).spec_is_full() ==> r is Ok && final(self)@ == old(self)@.push(value),
            old(self).spec_is_full() ==> (r matches Err(v) && v == value && final(self)@ == old(
                self,
            )@),
    {
        if self.items.len() == self.capacity {
            Err(value)
        } else {
            self.items.push(value);
            Ok(())
        }
    }

    /// Dequeue the oldest element, or nothing when the queue is empty.
    pub fn recv(&mut self) -> (r: Option<T>)
        requires
            old(self).wf(),
        ensures
            final(self).wf(),
            final(self).spec_capacity() == old(self).spec_capacity(),
            old(self)@.len() == 0 ==> r is None && final(self)@ == old(self)@,
            old(self)@.len() > 0 ==> (r matches Some(v) && v == old(self)@[0] && final(self)@
                == old(self)@.skip(1)),
    {
        if self.items.len() == 0 {
            None
        } else {
            let v = self.items.remove(0);
            proof {
                assert(self.items@ =~= old(self).items@.skip(1));
            }
            Some(v)
        }
    }
}

/// Backpressure at the bound: a send into a full queue is refused with the
/// queue unchanged, and after the consumer drains one element the same send
/// is accepted. Nothing is ever dropped silently.
pub proof fn lemma_backpressure<T>(q: BoundedQueue<T>)
    requires
        q.wf(),
        q.spec_is_full(),
        q.spec_capacity() > 0,
    ensures
        q@.len() == q.spec_capacity(),
        q@.skip(1).len() < q.spec_capacity(),
{
}

} // verus!
