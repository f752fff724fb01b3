//! A bounded outbound queue that never makes its producer wait: when it is
//! full, a new item pushes out the oldest pending one.

use vstd::prelude::*;
use std::collections::VecDeque;

verus! {

/// The items of `q` after `x` is offered to a queue of `capacity` items.
pub open spec fn offered<T>(q: Seq<T>, capacity: nat, x: T) -> Seq<T> {
    if capacity == 0 {
        q
    } else if q.len() >= capacity {
        q.drop_first().push(x)
    } else {
        q.push(x)
    }
}

/// A first-in first-out queue of at most `capacity` pending items.
pub struct Outbox<T> {
    items: VecDeque<T>,
    capacity: usize,
}

impl<T> View for Outbox<T> {
    type V = Seq<T>;

    /// The pending items, oldest first.
    closed spec fn view(&self) -> Seq<T> {
        self.items@
    }
}

impl<T> Outbox<T> {
    /// The most items the queue holds.
    pub closed spec fn max_len(&self) -> nat {
        self.capacity as nat
    }

    /// The queue holds no more than its capacity.
    pub closed spec fn wf(&self) -> bool {
        self.items@.len() <= self.capacity
    }

    /// An empty queue of at most `capacity` items.
    pub fn new(capacity: usize) -> (r: Outbox<T>)
        ensures
            r.wf(),
            r@ == Seq::<T>::empty(),
            r.max_len() == capacity,
    {
        Outbox { items: VecDeque::new(), capacity }
    }

    /// The number of pending items.
    pub fn len(&self) -> (r: usize)
        requires
            self.wf(),
        ensures
            r == self@.len(),
    {
        self.items.len()
    }

    /// Queues `x`. When the queue is full, its oldest item leaves it and is
    /// returned; a queue of capacity zero returns `x` itself.
    pub fn push(&mut self, x: T) -> (dropped: Option<T>)
        requires
            old(self).wf(),
        ensures
            final(self).wf(),
            final(self).max_len() == old(self).max_len(),
            final(self)@ == offered(old(self)@, old(self).max_len(), x),
            old(self).max_len() == 0 ==> dropped == Some(x),
            old(self).max_len() > 0 && old(self)@.len() >= old(self).max_len() ==> dropped == Some(
                old(self)@[0],
            ),
            old(self)@.len() < old(self).max_len() ==> dropped is None,
    {
        if self.capacity == 0 {
            return Some(x);
        }
        let dropped = if self.items.len() >= self.capacity {
            self.items.pop_front()
        } else {
            None
        };
        self.items.push_back(x);
        dropped
    }

    /// Takes the oldest pending item, if any.
    pub fn pop(&mut self) -> (r: Option<T>)
        requires
            old(self).wf(),
        ensures
            final(self).wf(),
            final(self).max_len() == old(self).max_len(),
            old(self)@.len() == 0 ==> r is None && final(self)@ == old(self)@,
            old(self)@.len() > 0 ==> r == Some(old(self)@[0]) && final(self)@ == old(self)@.drop_first(),
    {
        self.items.pop_front()
    }
}

} // verus!
