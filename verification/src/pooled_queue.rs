//! A bounded FIFO queue that keeps monotonic counters of how many items were
//! ever enqueued and dequeued. The runtime uses it as the run queue of ready
//! actor identities. The items live in a pre-sized ring buffer, so a push
//! and a pop are both constant-time and enqueueing allocates nothing.

use std::collections::VecDeque;
use vstd::prelude::*;

verus! {

/// Error values that can be returned as a result of methods on the queue.
#[derive(Clone, Copy, Debug, PartialEq, Eq, Structural)]
pub enum PooledQueueError {
    QueueFull,
    QueueEmpty,
}

/// Mathematical model of the queue: the items in arrival order (oldest
/// first), the fixed capacity, and the two monotonic counters.
#[verifier::ext_equal]
pub ghost struct PooledQueueModel<T> {
    pub items: Seq<T>,
    pub capacity: nat,
    pub enqueued: nat,
    pub dequeued: nat,
}

impl<T> PooledQueueModel<T> {
    /// Internal consistency: the queue never holds more than `capacity`
    /// items, and every item ever enqueued was either dequeued or is still
    /// queued.
    pub open spec fn inv(self) -> bool {
        &&& 1 <= self.capacity <= usize::MAX
        &&& self.items.len() <= self.capacity
        &&& self.enqueued == self.dequeued + self.items.len()
    }
}

/// A bounded FIFO queue with enqueue/dequeue counters.
pub struct PooledQueue<T> {
    items: VecDeque<T>,
    capacity: usize,
    enqueued: usize,
    dequeued: usize,
}

impl<T> View for PooledQueue<T> {
    type V = PooledQueueModel<T>;

    closed spec fn view(&self) -> PooledQueueModel<T> {
        PooledQueueModel {
            items: self.items@,
            capacity: self.capacity as nat,
            enqueued: self.enqueued as nat,
            dequeued: self.dequeued as nat,
        }
    }
}

impl<T> PooledQueue<T> {
    /// Well-formedness of the queue as a value.
    pub open spec fn wf(self) -> bool {
        self@.inv()
    }

    /// Returns the capacity of the queue.
    pub fn capacity(&self) -> (r: usize)
        ensures
            r == self@.capacity,
    {
        self.capacity
    }

    /// Returns how many items are in the queue currently.
    pub fn length(&self) -> (r: usize)
        ensures
            r == self@.items.len(),
    {
        self.items.len()
    }

    /// Returns the total number of items that have been enqueued.
    pub fn enqueued(&self) -> (r: usize)
        ensures
            r == self@.enqueued,
    {
        self.enqueued
    }

    /// Returns the total number of items that have been dequeued.
    pub fn dequeued(&self) -> (r: usize)
        ensures
            r == self@.dequeued,
    {
        self.dequeued
    }

    /// Appends `value` at the back of the queue. Fails with `QueueFull`, and
    /// changes nothing, exactly when the queue already holds `capacity`
    /// items; on success returns the new number of queued items.
    pub fn push(&mut self, value: T) -> (r: Result<usize, PooledQueueError>)
        requires
            old(self).wf(),
            old(self)@.enqueued < usize::MAX,
        ensures
            final(self).wf(),
            final(self)@.capacity == old(self)@.capacity,
            old(self)@.items.len() == old(self)@.capacity ==> {
                &&& r == Err::<usize, PooledQueueError>(PooledQueueError::QueueFull)
                &&& final(self)@ == old(self)@
            },
            old(self)@.items.len() < old(self)@.capacity ==> {
                &&& r == Ok::<usize, PooledQueueError>((old(self)@.items.len() + 1) as usize)
                &&& final(self)@.items == old(self)@.items.push(value)
                &&& final(self)@.enqueued == old(self)@.enqueued + 1
                &&& final(self)@.dequeued == old(self)@.dequeued
            },
    {
        if self.items.len() == self.capacity {
            return Err(PooledQueueError::QueueFull);
        }
        self.items.push_back(value);
        self.enqueued = self.enqueued + 1;
        Ok(self.items.len())
    }

    /// Removes and returns the oldest queued item. Fails with `QueueEmpty`,
    /// and changes nothing, exactly when the queue is empty.
    pub fn pop(&mut self) -> (r: Result<T, PooledQueueError>)
        requires
            old(self).wf(),
        ensures
            final(self).wf(),
            final(self)@.capacity == old(self)@.capacity,
            old(self)@.items.len() == 0 ==> {
                &&& r == Err::<T, PooledQueueError>(PooledQueueError::QueueEmpty)
                &&& final(self)@ == old(self)@
            },
            old(self)@.items.len() > 0 ==> {
                &&& r matches Ok(v) && v == old(self)@.items[0]
                &&& final(self)@.items == old(self)@.items.subrange(1, old(self)@.items.len() as int)
                &&& final(self)@.dequeued == old(self)@.dequeued + 1
                &&& final(self)@.enqueued == old(self)@.enqueued
            },
    {
        if self.items.len() == 0 {
            return Err(PooledQueueError::QueueEmpty);
        }
        let value = self.items.pop_front().unwrap();
        self.dequeued = self.dequeued + 1;
        Ok(value)
    }
}

/// Creates an empty queue with the given capacity, which must be at least 1.
pub fn create<T>(capacity: usize) -> (q: PooledQueue<T>)
    requires
        capacity >= 1,
    ensures
        q.wf(),
        q@.capacity == capacity,
        q@.items == Seq::<T>::empty(),
        q@.enqueued == 0,
        q@.dequeued == 0,
{
    PooledQueue { items: VecDeque::with_capacity(capacity), capacity, enqueued: 0, dequeued: 0 }
}

} // verus!
