//! A slot that starts empty, is written once, and is read from then on.
use std::sync::OnceLock;
use vstd::prelude::*;
use crate::brand::lock_value;
use crate::brand::pin;
use crate::brand::set_lock;
use crate::brand::unset_lock;

verus! {

/// Storage for the state of one context, made to stand in a static: empty
/// until the first `write`, full ever after. The slot is written and read
/// through a shared reference, so what it holds is no part of its value:
/// each operation says what holds of the reference it hands out.
#[verifier::reject_recursive_types(T)]
pub struct OnceCell<T: 'static> {
    inner: OnceLock<&'static T>,
}

impl<T: 'static> OnceCell<T> {
    /// What a write hands out: the kept value where the slot took it, nothing
    /// where the slot was full already.
    pub open spec fn settled(kept: &'static T, taken: bool) -> Option<&'static T> {
        if taken {
            Some(kept)
        } else {
            None
        }
    }

    /// An empty slot.
    pub fn new() -> (slot: Self) {
        OnceCell { inner: unset_lock() }
    }

    /// Decides what a write hands out, from the value kept for the rest of
    /// the process and from whether the slot took it.
    pub fn settle(kept: &'static T, taken: bool) -> (written: Option<&'static T>)
        ensures
            written == Self::settled(kept, taken),
    {
        if taken {
            Some(kept)
        } else {
            None
        }
    }

    /// The one write. Where the slot is empty it is filled with `value`, and
    /// the value comes back behind a reference that is good for the rest of
    /// the process. Where the slot is full it stays as it is, and nothing
    /// comes back.
    pub fn write(&self, value: T) -> (written: Option<&'static T>)
        ensures
            written matches Some(kept) ==> *kept == value,
    {
        let kept: &'static T = pin(Box::new(value));
        let taken = set_lock(&self.inner, kept).is_ok();
        Self::settle(kept, taken)
    }

    /// What was written, if the write has happened.
    pub fn read(&self) -> (written: Option<&'static T>) {
        match lock_value(&self.inner) {
            Some(kept) => Some(*kept),
            None => None,
        }
    }
}

} // verus!
