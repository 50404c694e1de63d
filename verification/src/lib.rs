//! A personal time tracker: named tasks, each with a stopwatch that can be
//! paused and resumed and that keeps counting across restarts of the program.
//!
//! The library is a state machine over plain values. It reads no keyboard,
//! draws nothing and writes no file: it takes keys, and hands back what is
//! to be saved and what is to be shown. Every operation that depends on the
//! time comes in two forms: one that takes the clock readings as numbers,
//! and one that reads a [`clock::Clock`] and hands what it read on to the
//! first. The clock keeps its last reading, so that what the second form
//! did can be said exactly as well.
//!
//! - [`timer`]: the stopwatch, and [`approx_instant`]: how its start marker
//!   is saved and restored;
//! - [`state`]: the task list, [`keys`]: what each key does to it, and
//!   [`screen`]: what it shows;
//! - [`timer_laws`] and [`state_laws`]: what holds of them in general.

pub mod approx_instant;
pub mod clock;
pub mod error;
pub mod keys;
pub mod screen;
pub mod state;
pub mod state_laws;
pub mod text;
pub mod timer;
pub mod timer_laws;
