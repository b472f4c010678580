//! What the operations of this crate promise, said of their arguments and results alone.
//!
//! Each law is about the contract of an executable function: `f.ensures(arguments, result)` says
//! that a call of `f` with those arguments may give that result.

pub mod answers;
pub mod bodies;
pub mod chat;
pub mod config;
pub mod fields;
pub mod relays;
pub mod wording;
