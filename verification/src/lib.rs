//! Core logic of a periodic camera capture and upload daemon.
//!
//! Every tick, a gate (an optional physical switch read through GPIO) decides
//! whether capture is permitted; each camera whose last successful run is old
//! enough is captured, and the fresh image is fanned out to every upload
//! endpoint whose own cadence has elapsed. This crate holds the verified
//! scheduling, gating and payload-framing logic; reading pins, grabbing
//! frames and performing HTTP calls are left to the surrounding binary.

pub mod camera;
pub mod config;
pub mod dispatch;
pub mod gate;
pub mod payload;
