//! Core logic of a small orientation-reporting device: a monotonic
//! millisecond clock driven by a periodic hardware tick, a non-blocking
//! line-command channel over a byte transport, a pure classifier from a
//! three-axis acceleration sample to one of six orientations, and the
//! control loop that schedules them and drives a heartbeat output.
//!
//! Hardware access (the timer peripheral, the serial transport, the
//! accelerometer bus) stays outside: callers hand this crate the bytes a
//! non-blocking read returned and the sample a sensor read produced, and
//! perform the responses and toggles it decides on.

pub mod command;
pub mod control;
pub mod orientation;
pub mod time;
