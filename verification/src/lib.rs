//! Capability-gated cells.
//!
//! A [`TokenCell`](crate::cell::TokenCell) pairs a value with the identity of a
//! token. The value is read or written only by presenting a token whose
//! identity matches; possession of the token, shared or exclusive, is the
//! right to read or to write. Nothing blocks and nothing waits: a wrong token
//! is reported at once.
//!
//! A cell that is written takes part in the borrow as well as the token, so
//! exclusive access to both is what a write asks for.
pub mod atomics;
pub mod text;
pub mod token;
pub mod runtime;
pub mod ghost;
pub mod singleton;
pub mod unchecked;
pub mod cell;
pub mod monads;
pub mod laws;
pub mod prelude;
