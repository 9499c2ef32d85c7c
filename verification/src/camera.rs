//! Per-camera runtime state and the capture due/apply logic.
//!
//! The device-capture call itself is opaque and happens outside this crate;
//! its outcome is handed back here, and this module decides how the camera's
//! timestamp advances and whether an image is available for dispatch.

use vstd::prelude::*;
use crate::config::Camera;

verus! {

/// What the opaque device-capture call produced.
#[derive(Debug)]
pub enum CaptureOutcome {
    /// The device could not be opened or started; nothing was captured.
    DeviceFailed,
    /// The device produced a frame, possibly empty.
    Frame(Vec<u8>),
}

/// One camera's runtime state: its static configuration and the time (whole
/// seconds since the epoch) of the last capture attempt that reached the
/// device. It starts at the epoch so the first tick always captures.
#[derive(Debug)]
pub struct CameraStatus {
    pub last_run: u64,
    pub config: Camera,
}

impl CameraStatus {
    /// Fresh state for one configured camera, timestamped at the epoch.
    pub fn new(config: Camera) -> (s: CameraStatus)
        ensures
            s.last_run == 0,
            s.config == config,
    {
        CameraStatus { last_run: 0, config }
    }

    /// A camera is due when strictly more than `min_interval` seconds have
    /// elapsed since its last run.
    pub fn is_due(&self, now: u64, min_interval: u64) -> (due: bool)
        requires
            self.last_run <= now,
        ensures
            due == (now - self.last_run > min_interval),
    {
        now - self.last_run > min_interval
    }

    /// Record the outcome of a capture attempt made at time `now`.
    ///
    /// The timestamp advances to `now` exactly when the device produced a
    /// frame, empty or not; it stays put when the device could not even be
    /// opened, so such a camera is retried every tick. The returned image is
    /// the frame when it is non-empty, and nothing otherwise.
    pub fn apply_capture(&mut self, now: u64, outcome: CaptureOutcome) -> (image: Option<Vec<u8>>)
        requires
            old(self).last_run <= now,
        ensures
            final(self).config == old(self).config,
            old(self).last_run <= final(self).last_run <= now,
            outcome is DeviceFailed ==> final(self).last_run == old(self).last_run && image
                is None,
            outcome matches CaptureOutcome::Frame(f) ==> final(self).last_run == now && (if f@.len()
                > 0 {
                image == Some(f)
            } else {
                image is None
            }),
    {
        match outcome {
            CaptureOutcome::DeviceFailed => None,
            CaptureOutcome::Frame(f) => {
                self.last_run = now;
                if f.len() > 0 {
                    Some(f)
                } else {
                    None
                }
            },
        }
    }
}

} // verus!
