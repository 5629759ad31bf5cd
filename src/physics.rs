//! The physics-enable gate: physics steps on every frame but those strictly
//! inside a window, which gives a deterministic warm-up after a (re)start.
use vstd::prelude::*;

use crate::config::{FPS, LOAD_SECONDS};
use crate::frames::Frame;

verus! {

/// Frames of warm-up that follow the start of a window.
pub const WARMUP_FRAMES: Frame = (FPS * LOAD_SECONDS) as Frame;

/// Every this many frames the soak test restarts the warm-up window.
pub const PAUSE_TEST_PERIOD: Frame = (FPS * 10) as Frame;

/// Physics is disabled on the frames strictly between `start` and `end`.
#[derive(Copy, Clone, PartialEq, Eq, Debug, Hash)]
pub struct EnablePhysicsAfter {
    pub start: Frame,
    pub end: Frame,
}

/// Whether physics steps on the frames of the simulation.
#[derive(Copy, Clone, PartialEq, Eq, Debug, Default, Hash)]
pub struct PhysicsEnabled(pub bool);

/// Whether the window `(start, end)` leaves physics enabled on `frame`.
pub open spec fn enabled_on(start: Frame, end: Frame, frame: Frame) -> bool {
    !(start < frame && frame < end)
}

impl Default for EnablePhysicsAfter {
    /// A warm-up window that begins at frame 0.
    fn default() -> (r: Self)
        ensures
            r.start == 0,
            r.end == WARMUP_FRAMES,
    {
        Self::with_default_offset(0)
    }
}

impl EnablePhysicsAfter {
    /// A window that disables physics strictly between `start` and `end`.
    pub fn new(start: Frame, end: Frame) -> (r: Self)
        ensures
            r.start == start,
            r.end == end,
    {
        Self { start, end }
    }

    /// A warm-up window that begins at `offset`.
    pub fn with_default_offset(offset: Frame) -> (r: Self)
        requires
            offset <= i32::MAX - WARMUP_FRAMES,
        ensures
            r.start == offset,
            r.end == offset + WARMUP_FRAMES,
    {
        Self::new(offset, offset + WARMUP_FRAMES)
    }

    /// Restarts the warm-up window at `offset`.
    pub fn update_after_default(&mut self, offset: Frame)
        requires
            offset <= i32::MAX - WARMUP_FRAMES,
        ensures
            final(self).start == offset,
            final(self).end == offset + WARMUP_FRAMES,
    {
        self.start = offset;
        self.end = offset + WARMUP_FRAMES;
    }

    /// Whether physics steps on `frame`: everywhere but strictly inside the
    /// window.
    pub fn is_enabled(&self, frame: Frame) -> (r: bool)
        ensures
            r == enabled_on(self.start, self.end, frame),
    {
        !(self.start < frame && frame < self.end)
    }
}

/// Restarts the warm-up window every few seconds of frames, to exercise
/// pausing and resuming physics; other frames leave it as it was.
pub fn pause_physics_test(enable_physics_after: &mut EnablePhysicsAfter, current_frame: Frame)
    requires
        current_frame <= i32::MAX - WARMUP_FRAMES,
    ensures
        current_frame % PAUSE_TEST_PERIOD == 0 ==> *final(enable_physics_after) == EnablePhysicsAfter::with_default_offset_spec(current_frame),
        current_frame % PAUSE_TEST_PERIOD != 0 ==> *final(enable_physics_after) == *old(enable_physics_after),
{
    if current_frame % PAUSE_TEST_PERIOD == 0 {
        enable_physics_after.update_after_default(current_frame);
    }
}

/// Decides whether physics steps on `current_frame`.
pub fn toggle_physics(enable_physics_after: &EnablePhysicsAfter, current_frame: Frame) -> (r: PhysicsEnabled)
    ensures
        r.0 == enabled_on(enable_physics_after.start, enable_physics_after.end, current_frame),
{
    PhysicsEnabled(enable_physics_after.is_enabled(current_frame))
}

impl EnablePhysicsAfter {
    /// The warm-up window that begins at `offset`.
    pub open spec fn with_default_offset_spec(offset: Frame) -> EnablePhysicsAfter {
        EnablePhysicsAfter { start: offset, end: (offset + WARMUP_FRAMES) as Frame }
    }
}

/// A warm-up window that starts at frame 0 stops physics on frames 1 to
/// `WARMUP_FRAMES - 1` and lets it step on frame 0 and from `WARMUP_FRAMES` on.
pub proof fn lemma_warmup_gate(frame: Frame)
    ensures
        enabled_on(0, WARMUP_FRAMES, frame) <==> (frame <= 0 || frame >= WARMUP_FRAMES),
        WARMUP_FRAMES == FPS * LOAD_SECONDS,
{
}

} // verus!
