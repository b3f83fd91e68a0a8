//! The slot that owns the handle of the supervised process.

use vstd::prelude::*;

verus! {

/// Holds at most one handle of a live process.
///
/// A slot is created empty or holding a handle and is afterwards only ever
/// emptied: nothing puts a handle back once it has been released.
pub struct ProcessSlot<T> {
    held: Option<T>,
}

impl<T> View for ProcessSlot<T> {
    type V = Option<T>;

    closed spec fn view(&self) -> Option<T> {
        self.held
    }
}

/// What releasing a slot with contents `held` yields: the handle given to the
/// caller for termination, and the contents left in the slot.
pub open spec fn released<T>(held: Option<T>) -> (Option<T>, Option<T>) {
    (held, None)
}

impl<T> ProcessSlot<T> {
    /// A slot with no process in it.
    pub fn empty() -> (slot: Self)
        ensures
            slot@ == None::<T>,
    {
        ProcessSlot { held: None }
    }

    /// A slot that owns `handle`.
    pub fn holding(handle: T) -> (slot: Self)
        ensures
            slot@ == Some(handle),
    {
        ProcessSlot { held: Some(handle) }
    }

    /// Whether the slot holds no handle.
    pub fn is_empty(&self) -> (vacant: bool)
        ensures
            vacant == (self@ is None),
    {
        self.held.is_none()
    }

    /// Takes the handle out for termination. The caller that receives
    /// `Some(handle)` must kill that process and wait for its exit; every
    /// later call finds the slot empty and receives `None`.
    pub fn release(&mut self) -> (handle: Option<T>)
        ensures
            (handle, final(self)@) == released(old(self)@),
    {
        self.held.take()
    }
}

/// Releasing is idempotent: the first release hands out whatever the slot
/// held and leaves it empty, and a second release hands out nothing and
/// leaves the slot as the first one did, so a handle is given out for
/// reaping at most once.
pub proof fn release_twice_is_release_once<T>(held: Option<T>)
    ensures
        released(held).0 == held,
        released(held).1 == None::<T>,
        released(released(held).1).0 == None::<T>,
        released(released(held).1).1 == released(held).1,
{
}

} // verus!
