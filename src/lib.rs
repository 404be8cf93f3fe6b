//! Short and long press detection for a single button.
//!
//! The decisions of the detector are kept apart from the timers that drive
//! it: `detector` holds the per-button state machine, `schedule` replays a
//! press against abstract time, `adapter` lets a plain handler receive short
//! and long presses, and `settings` holds the arithmetic of a counter button.
pub mod adapter;
pub mod detector;
pub mod schedule;
pub mod settings;
