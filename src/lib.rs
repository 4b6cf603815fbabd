//! A context that stores heterogeneous values keyed by their type.
//!
//! Values are held owned, behind a shared borrow, or behind an exclusive
//! borrow. Type identities and downcasting come from `better_any`.

mod context;
mod data;
mod hasher;
pub mod laws;
mod type_map;

pub use context::Context;
pub use data::{Data, ExclusiveValue, Mode, OwnedValue, SharedValue};
pub use hasher::TypeIdHasher;
