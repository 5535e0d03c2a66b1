//! The branded cells of `qcell` and their owner, as far as this crate relies
//! on them, and the steps of std that keep a value for good.
use std::borrow::Borrow;
use std::mem::ManuallyDrop;
use std::sync::OnceLock;
use qcell::TCell;
use qcell::TCellOwner;
use vstd::prelude::*;

verus! {

#[verifier::external_type_specification]
#[verifier::external_body]
#[verifier::reject_recursive_types(Q)]
pub struct ExTCellOwner<Q: 'static>(qcell::TCellOwner<Q>);

#[verifier::external_type_specification]
#[verifier::external_body]
#[verifier::reject_recursive_types(Q)]
#[verifier::reject_recursive_types(T)]
pub struct ExTCell<Q, T: ?Sized>(qcell::TCell<Q, T>);

#[verifier::external_type_specification]
#[verifier::external_body]
#[verifier::reject_recursive_types(T)]
pub struct ExOnceLock<T>(std::sync::OnceLock<T>);

/// `OnceLock::new`: a lock that can stand in a slot and be set through a
/// shared reference. What a lock holds changes behind that reference, so
/// nothing is claimed of it.
#[verifier::external_body]
pub(crate) fn unset_lock<T>() -> (lock: OnceLock<T>) {
    OnceLock::new()
}

/// `OnceLock::set`: sets the lock unless it was set before. A value that is
/// refused comes back as it was given.
#[verifier::external_body]
pub(crate) fn set_lock<T>(lock: &OnceLock<T>, value: T) -> (outcome: Result<(), T>)
    ensures
        outcome matches Err(refused) ==> refused == value,
{
    lock.set(value)
}

/// `OnceLock::get`: what the lock was set to, if it was set. Whether it was
/// depends on what the process did before, so nothing is claimed.
#[verifier::external_body]
pub(crate) fn lock_value<'a, T>(lock: &'a OnceLock<T>) -> (value: Option<&'a T>) {
    lock.get()
}

/// `TCellOwner::try_new`: the owner for the marker `Q`, unless one exists in
/// this process already. Which of the two comes back depends on what the
/// process did before, so nothing is claimed of it.
#[verifier::external_body]
pub(crate) fn claim_owner<Q: 'static>() -> (owner: Option<TCellOwner<Q>>) {
    TCellOwner::try_new()
}

/// `Borrow::borrow` at a branded cell: the cell of `T` that the state holds.
/// Which cell that is lies with the state's impl, so nothing is claimed.
#[verifier::external_body]
pub(crate) fn held_cell<'a, Q, S: Borrow<TCell<Q, T>>, T>(state: &'a S) -> (cell: &'a TCell<Q, T>) {
    state.borrow()
}

/// `TCell::ro`: a shared borrow of what the cell holds. What a cell holds is
/// hidden inside it, so nothing is claimed of the value.
#[verifier::external_body]
pub(crate) fn lend_shared<'a, Q: 'static, T>(cell: &'a TCell<Q, T>, owner: &'a TCellOwner<Q>) -> (payload: &'a T) {
    cell.ro(owner)
}

/// `TCell::rw`: an exclusive borrow of what the cell holds. What a cell holds
/// is hidden inside it, so nothing is claimed of the value.
#[verifier::external_body]
pub(crate) fn lend_exclusive<'a, Q: 'static, T>(
    cell: &'a TCell<Q, T>,
    owner: &'a mut TCellOwner<Q>,
) -> (payload: &'a mut T) {
    cell.rw(owner)
}

/// `ManuallyDrop::deref_mut`: the value kept from being dropped, to change in
/// place. What the caller leaves behind the borrow is what is kept.
#[verifier::external_body]
pub(crate) fn kept_mut<'a, V>(keeper: &'a mut ManuallyDrop<V>) -> (value: &'a mut V)
    ensures
        *value == old(keeper)@,
        final(keeper)@ == *final(value),
{
    std::ops::DerefMut::deref_mut(keeper)
}

/// `Box::leak`: the boxed value, never freed, behind a reference that is
/// good for the rest of the process. The value is the one that was boxed.
#[verifier::external_body]
pub(crate) fn pin<T: 'static>(boxed: Box<T>) -> (pinned: &'static T)
    ensures
        *pinned == *boxed,
{
    Box::leak(boxed)
}

} // verus!
