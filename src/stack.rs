use vstd::prelude::*;

verus! {

/// Returned by `Stack::push` when the stack already holds as many items as
/// its capacity allows.
#[derive(Debug, Clone, Copy, PartialEq, Eq, Structural)]
pub struct StackOverflowError;

/// A last-in first-out stack that never holds more than a fixed number of items.
#[derive(Debug)]
pub struct Stack<T> {
    capacity: usize,
    buffer: Vec<T>,
}

impl<T> Stack<T> {
    /// The items, bottom first.
    pub closed spec fn view(&self) -> Seq<T> {
        self.buffer@
    }

    /// The largest number of items the stack may hold.
    pub closed spec fn cap(&self) -> nat {
        self.capacity as nat
    }

    /// The stack holds no more items than its capacity.
    pub open spec fn wf(&self) -> bool {
        self@.len() <= self.cap()
    }

    /// An empty stack that accepts at most `capacity` items.
    pub fn with_capacity(capacity: usize) -> (r: Self)
        ensures
            r@ == Seq::<T>::empty(),
            r.cap() == capacity,
            r.wf(),
    {
        Stack { capacity: capacity, buffer: Vec::new() }
    }

    /// Puts `item` on top and returns the new number of items, or fails,
    /// leaving the stack as it was, when it is full.
    pub fn push(&mut self, item: T) -> (r: Result<usize, StackOverflowError>)
        requires
            old(self).wf(),
        ensures
            final(self).wf(),
            final(self).cap() == old(self).cap(),
            r is Err <==> old(self)@.len() == old(self).cap(),
            r is Err ==> final(self)@ == old(self)@,
            r is Ok ==> final(self)@ == old(self)@.push(item),
            r is Ok ==> r->Ok_0 == final(self)@.len(),
    {
        if self.buffer.len() == self.capacity {
            Err(StackOverflowError)
        } else {
            self.buffer.push(item);
            Ok(self.buffer.len())
        }
    }

    /// Takes the top item off, or returns `None` when the stack is empty.
    pub fn pop(&mut self) -> (r: Option<T>)
        requires
            old(self).wf(),
        ensures
            final(self).wf(),
            final(self).cap() == old(self).cap(),
            old(self)@.len() == 0 ==> r is None && final(self)@ == old(self)@,
            old(self)@.len() > 0 ==> r == Some(old(self)@.last())
                && final(self)@ == old(self)@.drop_last(),
    {
        self.buffer.pop()
    }

    /// The number of items.
    pub fn len(&self) -> (r: usize)
        ensures
            r == self@.len(),
    {
        self.buffer.len()
    }

    /// The largest number of items the stack may hold.
    pub fn capacity(&self) -> (r: usize)
        ensures
            r == self.cap(),
    {
        self.capacity
    }

    /// The items, bottom first.
    pub fn items(&self) -> (r: &Vec<T>)
        ensures
            r@ == self@,
    {
        &self.buffer
    }
}

} // verus!
