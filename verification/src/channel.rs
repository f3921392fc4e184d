//! Bounded first-in first-out queues: the command bus and the waker.

use std::collections::VecDeque;
use vstd::prelude::*;

verus! {

/// A queue that holds at most `capacity()` items and hands them out in the
/// order in which they were accepted.
pub struct Channel<T> {
    queue: VecDeque<T>,
    cap: usize,
}

impl<T> View for Channel<T> {
    type V = Seq<T>;

    closed spec fn view(&self) -> Seq<T> {
        self.queue@
    }
}

impl<T> Channel<T> {
    /// The most items the queue ever holds.
    pub closed spec fn spec_capacity(&self) -> usize {
        self.cap
    }

    /// Holds of every channel that `new` made, whatever was done to it since.
    pub closed spec fn wf(&self) -> bool {
        self.queue@.len() <= self.cap
    }

    /// Tells whether the channel is as `new` makes it and its methods
    /// leave it.
    pub fn is_well_formed(&self) -> (r: bool)
        ensures
            r == self.wf(),
    {
        self.queue.len() <= self.cap
    }

    /// An empty channel for at most `cap` items.
    pub fn new(cap: usize) -> (r: Self)
        ensures
            r.wf(),
            r@ == Seq::<T>::empty(),
            r.spec_capacity() == cap,
    {
        Channel { queue: VecDeque::new(), cap }
    }

    #[verifier::when_used_as_spec(spec_capacity)]
    pub fn capacity(&self) -> (r: usize)
        ensures
            r == self.spec_capacity(),
    {
        self.cap
    }

    /// The number of items waiting.
    pub fn len(&self) -> (r: usize)
        ensures
            r == self@.len(),
    {
        self.queue.len()
    }

    pub fn is_empty(&self) -> (r: bool)
        ensures
            r == (self@.len() == 0),
    {
        self.queue.len() == 0
    }

    pub fn is_full(&self) -> (r: bool)
        requires
            self.wf(),
        ensures
            r == (self@.len() == self.spec_capacity()),
    {
        self.queue.len() >= self.cap
    }

    /// Appends `item` unless the channel is full; a full channel is left as
    /// it was and the item comes back.
    pub fn try_send(&mut self, item: T) -> (r: Result<(), T>)
        requires
            old(self).wf(),
        ensures
            final(self).wf(),
            final(self).spec_capacity() == old(self).spec_capacity(),
            old(self)@.len() < old(self).spec_capacity() ==> r == Ok::<(), T>(()) && final(self)@
                == old(self)@.push(item),
            old(self)@.len() >= old(self).spec_capacity() ==> r == Err::<(), T>(item)
                && final(self)@ == old(self)@,
    {
        if self.queue.len() < self.cap {
            self.queue.push_back(item);
            Ok(())
        } else {
            Err(item)
        }
    }

    /// Takes the oldest item, if there is one.
    pub fn try_recv(&mut self) -> (r: Option<T>)
        requires
            old(self).wf(),
        ensures
            final(self).wf(),
            final(self).spec_capacity() == old(self).spec_capacity(),
            old(self)@.len() == 0 ==> r.is_none() && final(self)@ == old(self)@,
            old(self)@.len() > 0 ==> r == Some(old(self)@[0])
                && final(self)@ == old(self)@.subrange(1, old(self)@.len() as int),
    {
        self.queue.pop_front()
    }
}

/// A channel never holds more than its capacity, whatever was done to it.
pub proof fn lemma_channel_bounded<T>(c: Channel<T>)
    requires
        c.wf(),
    ensures
        c@.len() <= c.spec_capacity(),
{
}

} // verus!
