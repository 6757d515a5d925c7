//! The read path of a paste service: key parsing, the outcomes of a
//! database lookup, the cache of rendered markup, the rule of ownership
//! that gates deletion, and the state machine that composes them into one
//! read.
//!
//! The library performs no I/O. Its caller asks the database and runs the
//! highlighter, and hands the answers in; see [`read`]. What every read
//! guarantees is proved in [`policy`].

pub mod access;
pub mod cache;
pub mod entry;
pub mod error;
pub mod highlight;
pub mod key;
pub mod paste;
pub mod policy;
pub mod read;
pub mod text;
