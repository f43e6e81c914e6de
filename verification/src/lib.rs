//! The state engine of a falling-block puzzle: a grid of cells, one falling
//! piece, a single-slot input mailbox, and the transitions that the input
//! listener, the gravity ticker and the frame loop apply to them.
//!
//! Everything here is a function on plain values. Threads, locks, timers and
//! the terminal stay with the caller.

pub mod cell;
pub mod frame;
pub mod grid;
pub mod intent;
pub mod listener;
pub mod materialize;
pub mod piece;
pub mod render;
