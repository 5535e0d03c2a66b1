//! Contexts, their owner tokens and the access to their state.
use std::borrow::Borrow;
use std::mem::ManuallyDrop;
use std::ops::Deref;
use std::ops::DerefMut;
use qcell::TCell;
use qcell::TCellOwner;
use vstd::prelude::*;
use crate::brand::claim_owner;
use crate::brand::held_cell;
use crate::brand::kept_mut;
use crate::brand::lend_exclusive;
use crate::brand::lend_shared;
use crate::brand::pin;
use crate::once::OnceCell;

verus! {

/// Context for singleton state: a marker type, the type of its state and the
/// slot that holds it.
pub trait Context: Sized + 'static {
    type State: 'static;

    /// The slot of this context, the same one at every call: `init` fills
    /// it, once.
    fn context() -> &'static OnceCell<Self::State>;
}

/// Borrow-owner of every `TCell` branded with the context `C`, and the proof
/// that the state of `C` has been written.
#[verifier::reject_recursive_types(C)]
pub struct ContextOwner<C: Context> {
    token: ManuallyDrop<TCellOwner<C>>,
    state: &'static C::State,
}

impl<C: Context> ContextOwner<C> {
    /// The brand that the token holds.
    pub closed spec fn brand(&self) -> TCellOwner<C> {
        self.token@
    }

    /// The state that the context was initialised with.
    pub closed spec fn state_value(&self) -> C::State {
        *self.state
    }

    /// Builds the owner token from the two outcomes of an initialisation:
    /// the brand, if it could be claimed, and the written state, if the slot
    /// took it. There is a token exactly where both are there; it holds that
    /// brand and stands for that state.
    pub fn assemble(brand: Option<TCellOwner<C>>, written: Option<&'static C::State>) -> (owner:
        Option<Self>)
        ensures
            owner.is_some() == (brand.is_some() && written.is_some()),
            owner matches Some(o) ==> o.brand() == brand->Some_0 && o.state_value()
                == *written->Some_0,
    {
        match (brand, written) {
            (Some(brand), Some(state)) => Some(
                ContextOwner { token: ManuallyDrop::new(brand), state },
            ),
            _ => None,
        }
    }

    /// The state of the context, good for the rest of the process.
    pub fn state(&self) -> (state: &'static C::State)
        ensures
            *state == self.state_value(),
    {
        C::state(self)
    }

    /// Shared borrow of the payload of the cell of `T` that the state holds.
    pub fn get<'a, T>(&'a self) -> (payload: &'a T) where C::State: Borrow<TCell<C, T>> {
        C::get(self)
    }

    /// Exclusive borrow of the payload of the cell of `T` that the state
    /// holds. The token stands for the same state afterwards.
    pub fn get_mut<'a, T>(&'a mut self) -> (payload: &'a mut T) where C::State: Borrow<TCell<C, T>>
        ensures
            final(self).state_value() == old(self).state_value(),
    {
        C::get_mut(self)
    }
}

impl<C: Context> Deref for ContextOwner<C> {
    type Target = TCellOwner<C>;

    /// The brand itself, to borrow from cells that the state does not hold.
    fn deref(&self) -> (brand: &TCellOwner<C>)
        ensures
            *brand == self.brand(),
    {
        self.token.deref()
    }
}

impl<C: Context> DerefMut for ContextOwner<C> {
    /// The brand itself, to borrow exclusively from cells that the state does
    /// not hold. The token stands for the same state afterwards.
    fn deref_mut(&mut self) -> (brand: &mut TCellOwner<C>)
        ensures
            *brand == old(self).brand(),
            final(self).brand() == *final(brand),
            final(self).state_value() == old(self).state_value(),
    {
        kept_mut(&mut self.token)
    }
}

/// The life of a context: initialised once, read from then on.
pub trait ContextInit: Context {
    /// Initialises the state of the context and hands out the one owner
    /// token: claims the brand and, with the brand, writes `state` into the
    /// slot of the context. A call that finds the brand claimed or the slot
    /// full gets no token, and its `state` is never read.
    fn init(state: Self::State) -> (owner: Option<ContextOwner<Self>>)
        ensures
            owner matches Some(o) ==> o.state_value() == state,
    ;

    /// The state of the context, which the token proves to be written.
    fn state(owner: &ContextOwner<Self>) -> (state: &'static Self::State)
        ensures
            *state == owner.state_value(),
    ;
}

impl<C: Context> ContextInit for C {
    fn init(state: C::State) -> (owner: Option<ContextOwner<C>>) {
        match claim_owner() {
            None => ContextOwner::assemble(None, None),
            Some(brand) => ContextOwner::assemble(Some(brand), C::context().write(state)),
        }
    }

    fn state(owner: &ContextOwner<C>) -> (state: &'static C::State) {
        owner.state
    }
}

/// A stateless global context, borrow-owner of every `TCell<Global, T>`.
pub struct Global;

impl Context for Global {
    type State = ();

    /// The state is the unit value, so every slot of it is as good as
    /// another: each call keeps a fresh one for the rest of the process.
    fn context() -> &'static OnceCell<()> {
        pin(Box::new(OnceCell::new()))
    }
}

/// Borrowing from the cells that the state of a context holds.
pub trait ContextExt<T>: Context {
    /// Shared borrow of the payload of the cell of `T` in the state.
    fn get<'a>(owner: &'a ContextOwner<Self>) -> (payload: &'a T);

    /// Exclusive borrow of the payload of the cell of `T` in the state. The
    /// token stands for the same state afterwards.
    fn get_mut<'a>(owner: &'a mut ContextOwner<Self>) -> (payload: &'a mut T)
        ensures
            final(owner).state_value() == old(owner).state_value(),
    ;
}

impl<T, C> ContextExt<T> for C where C: Context, C::State: Borrow<TCell<C, T>> {
    fn get<'a>(owner: &'a ContextOwner<C>) -> (payload: &'a T) {
        lend_shared(held_cell(owner.state), owner.token.deref())
    }

    fn get_mut<'a>(owner: &'a mut ContextOwner<C>) -> (payload: &'a mut T) {
        let state: &'static C::State = owner.state;
        lend_exclusive(held_cell(state), kept_mut(&mut owner.token))
    }
}

} // verus!
