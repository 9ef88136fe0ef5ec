//! A status line for terminal programs: a small piece of text that is drawn
//! on the error stream, redrawn at a fixed pace, and erased when it is no
//! longer wanted.
//!
//! This crate is the part that decides: what is written for a redraw or an
//! erase, how the visibility flag moves, and what the periodic task does on
//! each wake-up. Every function here returns the text that belongs on the
//! terminal; writing it, sleeping and threading are left to the caller.

pub mod escapes;
pub mod laws;
pub mod options;
pub mod render;
pub mod status;

pub use options::Options;
pub use status::{LineView, State, StatusLine, Tick};
