use vstd::prelude::*;

use std::marker::PhantomData;

verus! {

/// Proof that the current thread may use the collected heap for the lifetime `'a`.
#[derive(Clone, Copy)]
pub struct Guard<'a>(pub(crate) PhantomData<&'a ()>);

/// The collected heap, usable while its guard lives.
pub struct GuardedHeap<'a>(Guard<'a>);

impl<'a> GuardedHeap<'a> {
    pub(crate) fn new(guard: Guard<'a>) -> (heap: Self)
        ensures
            heap.guard() == guard,
    {
        Self(guard)
    }

    /// The guard the heap was opened with.
    pub closed spec fn guard(&self) -> Guard<'a> {
        self.0
    }
}

/// A value that can be stored on the collected heap.
pub trait HeapStoreable {

}

} // verus!
