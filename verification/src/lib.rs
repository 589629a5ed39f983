//! A pomodoro timer library: a phase state machine driven by one-minute
//! ticks, alternating work and break intervals, with a long break after a
//! configurable number of completed work cycles.

pub mod display;
pub mod timer;
pub mod trace;
