//! Core logic of a free-fall alert monitor.
//!
//! A handheld device samples an accelerometer, classifies each reading by its
//! squared magnitude, and drives a visual and audible alert while the device
//! appears to be in free fall. This crate holds the verified core: the
//! threshold classifier, the display patterns, and the alert state machine
//! that a cooperative tick loop advances. Reading the sensor, refreshing the
//! LED matrix and toggling the speaker pin stay with the board-facing code,
//! which feeds each fresh sample into the state machine and carries out the
//! actions it returns.

pub mod classify;
pub mod monitor;
pub mod pattern;
