//! The tube protocol and the data it works on.
//!
//! `buffer` holds what was received; `arg` describes what a caller may ask
//! for; `tube` takes a receive step by step and `session` an interactive
//! session; `process` and `remote` hold the rules of the two transports.

pub mod arg;
pub mod buffer;
pub mod error;
pub mod pattern;
pub mod process;
pub mod remote;
pub mod session;
pub mod span;
pub mod text;
pub mod tube;
