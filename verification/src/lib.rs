//! Core of an interactive terminal countdown timer.
//!
//! The library holds everything the timer decides and computes: the timer
//! engine (elapsed time, progress, completion), the two-mode input state
//! machine that edits and commits the target duration, the alarm-wait step
//! that synchronises loop control with audio playback, and the projection of
//! the application state into a render-ready view. Drawing, keyboard reads,
//! clock sampling and audio playback are left to the surrounding binary,
//! which hands this library plain values.

pub mod control;
pub mod parse;
pub mod state;
pub mod timer;
pub mod view;
