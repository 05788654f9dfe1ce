//! Bounded hand-off between packet intake and the scoring task.
//!
//! The dispatcher models a single-producer single-consumer queue of capacity
//! 1024. `try_send` never blocks: on a full queue the newest item is dropped
//! and counted, which is the pipeline's only overload-shedding mechanism.
//! Items that were accepted are handed out strictly in the order they were
//! enqueued; dropped items are never handed out.

use vstd::prelude::*;

verus! {

/// How many items the queue holds at most.
pub const DISPATCH_CAPACITY: usize = 1024;

/// Bounded FIFO queue with a saturating counter of shed items.
pub struct Dispatcher<T> {
    queue: Vec<T>,
    dropped: u64,
}

impl<T> View for Dispatcher<T> {
    type V = Seq<T>;

    closed spec fn view(&self) -> Seq<T> {
        self.queue@
    }
}

impl<T> Dispatcher<T> {
    /// How many items have been shed on a full queue so far.
    pub closed spec fn spec_dropped(&self) -> u64 {
        self.dropped
    }

    /// Creates an empty dispatcher that has shed nothing.
    pub fn new() -> (d: Self)
        ensures
            d@ == Seq::<T>::empty(),
            d.spec_dropped() == 0,
    {
        Dispatcher { queue: Vec::new(), dropped: 0 }
    }

    /// How many items are queued.
    pub fn len(&self) -> (n: usize)
        ensures
            n == self@.len(),
    {
        self.queue.len()
    }

    /// How many items have been shed on a full queue.
    pub fn dropped(&self) -> (n: u64)
        ensures
            n == self.spec_dropped(),
    {
        self.dropped
    }

    /// Non-blocking enqueue: appends to the back while the queue is below
    /// capacity, and on a full queue drops the item, counts the drop, and
    /// leaves the queue unchanged.
    pub fn try_send(&mut self, item: T) -> (accepted: bool)
        ensures
            old(self)@.len() < DISPATCH_CAPACITY ==> {
                &&& accepted
                &&& final(self)@ == old(self)@.push(item)
                &&& final(self).spec_dropped() == old(self).spec_dropped()
            },
            old(self)@.len() >= DISPATCH_CAPACITY ==> {
                &&& !accepted
                &&& final(self)@ == old(self)@
                &&& final(self).spec_dropped() == if old(self).spec_dropped() < u64::MAX {
                    old(self).spec_dropped() + 1
                } else {
                    old(self).spec_dropped() as int
                }
            },
    {
        if self.queue.len() < DISPATCH_CAPACITY {
            self.queue.push(item);
            true
        } else {
            if self.dropped < u64::MAX {
                self.dropped = self.dropped + 1;
            }
            false
        }
    }

    /// Dequeues the oldest item, if any: surviving items come out in strict
    /// first-in first-out order.
    pub fn recv(&mut self) -> (r: Option<T>)
        ensures
            final(self).spec_dropped() == old(self).spec_dropped(),
            old(self)@.len() == 0 ==> r is None && final(self)@ == old(self)@,
            old(self)@.len() > 0 ==> {
                &&& r matches Some(item) && item == old(self)@[0]
                &&& final(self)@ == old(self)@.subrange(1, old(self)@.len() as int)
            },
    {
        if self.queue.len() == 0 {
            None
        } else {
            let item = self.queue.remove(0);
            proof {
                assert(old(self)@.remove(0) =~= old(self)@.subrange(1, old(self)@.len() as int));
            }
            Some(item)
        }
    }
}

} // verus!
