use std::collections::VecDeque;
use vstd::prelude::*;

verus! {

/// Outcome of taking from a queue.
#[derive(Debug, PartialEq, Eq)]
pub enum Dequeue<T> {
    /// The oldest waiting item.
    Item(T),
    /// Empty but still open: the consumer waits for the producer.
    Wait,
    /// Closed and drained: the consumer stops.
    Finished,
}

/// A fixed-capacity FIFO channel with one producer and one consumer.
pub struct BoundedQueue<T> {
    items: VecDeque<T>,
    capacity: usize,
    closed: bool,
}

impl<T> BoundedQueue<T> {
    /// The items waiting, oldest first.
    pub closed spec fn view(&self) -> Seq<T> {
        self.items@
    }

    pub closed spec fn spec_capacity(&self) -> nat {
        self.capacity as nat
    }

    pub closed spec fn spec_closed(&self) -> bool {
        self.closed
    }

    /// Never more items than slots, and at least one slot.
    pub open spec fn wf(&self) -> bool {
        &&& self.spec_capacity() > 0
        &&& self@.len() <= self.spec_capacity()
    }

    /// An open, empty queue with `capacity` slots.
    pub fn new(capacity: usize) -> (q: Self)
        requires
            capacity > 0,
        ensures
            q.wf(),
            q@ == Seq::<T>::empty(),
            q.spec_capacity() == capacity,
            !q.spec_closed(),
    {
        BoundedQueue { items: VecDeque::new(), capacity, closed: false }
    }

    pub fn len(&self) -> (r: usize)
        ensures
            r == self@.len(),
    {
        self.items.len()
    }

    pub fn capacity(&self) -> (r: usize)
        ensures
            r == self.spec_capacity(),
    {
        self.capacity
    }

    pub fn is_closed(&self) -> (r: bool)
        ensures
            r == self.spec_closed(),
    {
        self.closed
    }

    pub fn is_full(&self) -> (r: bool)
        ensures
            r == (self@.len() == self.spec_capacity()),
    {
        self.items.len() == self.capacity
    }

    /// Offers `item`. A full or closed queue hands it back untouched, so the
    /// producer keeps it and suspends instead of losing it.
    pub fn try_push(&mut self, item: T) -> (r: Result<(), T>)
        requires
            old(self).wf(),
        ensures
            final(self).wf(),
            final(self).spec_capacity() == old(self).spec_capacity(),
            final(self).spec_closed() == old(self).spec_closed(),
            match r {
                Ok(()) => {
                    &&& !old(self).spec_closed()
                    &&& old(self)@.len() < old(self).spec_capacity()
                    &&& final(self)@ == old(self)@.push(item)
                },
                Err(back) => {
                    &&& (old(self).spec_closed() || old(self)@.len() == old(self).spec_capacity())
                    &&& back == item
                    &&& final(self)@ == old(self)@
                },
            },
    {
        if self.closed || self.items.len() == self.capacity {
            Err(item)
        } else {
            self.items.push_back(item);
            Ok(())
        }
    }

    /// Takes the oldest item; an empty queue says whether to wait or stop.
    pub fn try_pop(&mut self) -> (r: Dequeue<T>)
        requires
            old(self).wf(),
        ensures
            final(self).wf(),
            final(self).spec_capacity() == old(self).spec_capacity(),
            final(self).spec_closed() == old(self).spec_closed(),
            match r {
                Dequeue::Item(x) => {
                    &&& old(self)@.len() > 0
                    &&& x == old(self)@[0]
                    &&& final(self)@ == old(self)@.drop_first()
                },
                Dequeue::Wait => {
                    &&& old(self)@.len() == 0
                    &&& !old(self).spec_closed()
                    &&& final(self)@ == old(self)@
                },
                Dequeue::Finished => {
                    &&& old(self)@.len() == 0
                    &&& old(self).spec_closed()
                    &&& final(self)@ == old(self)@
                },
            },
    {
        match self.items.pop_front() {
            Some(x) => Dequeue::Item(x),
            None => {
                if self.closed {
                    Dequeue::Finished
                } else {
                    Dequeue::Wait
                }
            },
        }
    }

    /// The producer has ended: no more items come, those waiting stay.
    pub fn close(&mut self)
        requires
            old(self).wf(),
        ensures
            final(self).wf(),
            final(self)@ == old(self)@,
            final(self).spec_capacity() == old(self).spec_capacity(),
            final(self).spec_closed(),
    {
        self.closed = true;
    }
}

} // verus!
