//! Orchestration core of an ambient picture frame: surface configuration,
//! the renderer's bookkeeping of its two draw layers, the rotation and redraw
//! timers, and the event-loop decisions that tie them together.
//!
//! The host program owns the window and the GPU. It feeds window-system events
//! and the current time into [`driver::Driver`], and performs the
//! [`driver::Action`]s that come back.

pub mod driver;
pub mod error;
pub mod picture;
pub mod renderer;
pub mod surface;
pub mod timer;
