//! The future of a call that travels over the ring: a cell that the ring
//! handler fills and the caller polls.

use crate::waker::wake;
use std::sync::Arc;
use std::task::Waker;
use vstd::prelude::*;

verus! {

/// The cell of a ring call: the result once it is there, and the task to
/// wake when it arrives.
pub struct SlotInner<T> {
    pub value: Option<T>,
    pub waker: Option<Waker>,
}

impl<T> SlotInner<T> {
    /// An empty cell.
    pub fn new() -> (s: Self)
        ensures
            s.value is None,
            s.waker is None,
    {
        SlotInner { value: None, waker: None }
    }

    /// Stores the result and wakes the task that waits for it, if one does.
    pub fn set_result(&mut self, item: T)
        ensures
            final(self).value == Some(item),
            final(self).waker is None,
    {
        self.value = Some(item);
        match self.waker.take() {
            Some(waker) => {
                wake(waker);
            },
            None => {},
        }
    }

    /// Takes the result if it is there; else stores `waker` as the task to
    /// wake and returns `None`.
    pub fn poll(&mut self, waker: Waker) -> (r: Option<T>)
        ensures
            r == old(self).value,
            final(self).value is None,
            final(self).waker == if old(self).value is Some {
                old(self).waker
            } else {
                Some(waker)
            },
    {
        match self.value.take() {
            Some(val) => Some(val),
            None => {
                self.waker = Some(waker);
                None
            },
        }
    }
}

/// Wraps `item` for owners that share it.
pub fn new_shared<T>(item: T) -> (shared: Arc<T>)
    ensures
        *shared == item,
{
    Arc::new(item)
}

/// The future of a ring call.
pub struct LocalFut<T> {
    pub slot: SlotInner<T>,
}

impl<T> LocalFut<T> {
    /// Polls the future: `Some` with the result once the ring handler has
    /// stored it, and `None`, with `waker` stored, before.
    pub fn poll(&mut self, waker: Waker) -> (r: Option<T>)
        ensures
            r == old(self).slot.value,
            final(self).slot.value is None,
            final(self).slot.waker == if old(self).slot.value is Some {
                old(self).slot.waker
            } else {
                Some(waker)
            },
    {
        self.slot.poll(waker)
    }
}

} // verus!
