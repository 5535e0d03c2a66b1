//! Singleton contexts: a marker type, a state written once for the life of
//! the process, and an owner token that lends out the branded cells of that
//! state under the borrow rules.
//!
//! `once` holds the write-once slot, `brand` what is taken on trust from
//! `qcell` and std, `context` the contexts and their tokens, and `wiring` the
//! text that a derive writes for a marker type.
pub mod brand;
pub mod context;
pub mod once;
pub mod wiring;

pub use context::Context;
pub use context::ContextExt;
pub use context::ContextInit;
pub use context::ContextOwner;
pub use context::Global;
pub use once::OnceCell;
pub use qcell::TCell;
pub use wiring::derive_context;
pub use wiring::ContextDeriveInput;
pub use wiring::DeriveError;
