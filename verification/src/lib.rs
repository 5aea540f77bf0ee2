//! A key-indexed rendezvous map for cooperative tasks.
//!
//! A lookup for an absent key does not fail: the caller registers as a
//! waiter and is resumed when some other task inserts a value for that key.
//! This crate verifies the rendezvous logic itself: the value table, the
//! waiter registry, and the decisions `insert`, `get`, `subscribe` and
//! `remove` make on them. An async host drives these decisions and supplies
//! the actual suspension primitives.

pub mod bounded;
pub mod model;
pub mod unbounded;

pub use bounded::napmap;
pub use bounded::NapMap;
pub use model::ModelState;
pub use model::Op;
pub use unbounded::unbounded;
pub use unbounded::UnboundedNapMap;
