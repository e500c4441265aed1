//! Verified core of a terminal typing-practice tool: the typing-session
//! engine (live per-character scoring, timing, completion state machine),
//! the screen router, and the persistent stats store with its binary
//! file format.
//!
//! Terminal rendering and file I/O live outside this crate; the library
//! exchanges plain values (characters, key codes, byte buffers) with its
//! surroundings.

pub mod app;
pub mod clock;
pub mod codec;
pub mod session;
pub mod stats;
pub mod store;
