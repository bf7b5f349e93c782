//! Frame pacing.
//!
//! When vertical sync cannot be relied on, rendering is slowed down to a
//! target rate: each frame notes its start instant, and after recording
//! the surrounding layer sleeps away whatever slack the target frame time
//! leaves. The slack computation is verified here; reading the clock is
//! the one trusted step, and sleeping belongs to the surrounding layer.
use vstd::prelude::*;

verus! {

#[verifier::external_type_specification]
#[verifier::external_body]
pub struct ExInstant(std::time::Instant);

/// Relies on std::time::Instant::now for an opaque reading of the
/// monotonic clock; nothing is assumed about the value.
pub assume_specification[ std::time::Instant::now ]() -> (r: std::time::Instant);

/// Slows rendering to a target rate by exposing how much of the frame
/// budget is left.
pub struct TargetTime {
    pub(crate) target_frame_time_micros: u64,
    pub(crate) last_frame_start: std::time::Instant,
}

impl TargetTime {
    /// The frame budget in microseconds.
    pub open(crate) spec fn target_micros_spec(self) -> u64 {
        self.target_frame_time_micros
    }

    /// The stored frame-start instant.
    pub open(crate) spec fn frame_start_spec(self) -> std::time::Instant {
        self.last_frame_start
    }

    /// Create a new target time from frames per second.
    pub fn new(target_fps: u64) -> (r: Self)
        requires
            0 < target_fps,
        ensures
            r.target_micros_spec() == 1_000_000u64 / target_fps,
    {
        TargetTime {
            target_frame_time_micros: 1_000_000 / target_fps,
            last_frame_start: std::time::Instant::now(),
        }
    }

    /// Start a new frame: remember the clock reading.
    pub fn start_frame(&mut self)
        ensures
            final(self).target_micros_spec() == old(self).target_micros_spec(),
    {
        self.last_frame_start = std::time::Instant::now();
    }

    /// The frame budget in microseconds.
    pub fn target_frame_time_micros(&self) -> (r: u64)
        ensures
            r == self.target_micros_spec(),
    {
        self.target_frame_time_micros
    }

    /// The instant the current frame started, for the surrounding layer
    /// to measure the frame's duration against.
    pub fn frame_start(&self) -> (r: std::time::Instant)
        ensures
            r == self.frame_start_spec(),
    {
        self.last_frame_start
    }
}

impl Default for TargetTime {
    /// The conventional 60 frames-per-second budget.
    fn default() -> (r: Self)
        ensures
            r.target_micros_spec() == 16666u64,
    {
        TargetTime::new(60)
    }
}

/// How long to keep sleeping after a frame took `elapsed_micros` of a
/// `target_micros` budget: the remainder, or nothing once the budget is
/// spent.
pub fn slack_micros(target_micros: u64, elapsed_micros: u64) -> (r: u64)
    ensures
        elapsed_micros < target_micros ==> r == target_micros - elapsed_micros,
        elapsed_micros >= target_micros ==> r == 0,
{
    if elapsed_micros < target_micros {
        target_micros - elapsed_micros
    } else {
        0
    }
}

} // verus!
