//! Core logic of a local stack-unwinding facility: the status-code taxonomy
//! of the unwind engine, the interpretation of each engine reply, and the
//! stepping protocol that a frame cursor must follow.

pub mod cursor;
pub mod naming;
pub mod status;

pub use status::UnwindError;
