//! Process-wide configuration, fixed at startup.
use vstd::prelude::*;

verus! {

/// Number of players in a match.
pub const NUM_PLAYERS: usize = 2;

/// Simulation ticks per second.
pub const FPS: usize = 60;

/// Most frames a peer may simulate ahead of confirmed input.
pub const MAX_PREDICTION: usize = 5;

/// Frames of delay applied to local input.
pub const INPUT_DELAY: usize = 3;

/// Seconds of warm-up during which physics does not step.
pub const LOAD_SECONDS: usize = 1;

/// Slots in each frame-hash ring buffer: three prediction windows, so that a
/// confirmed entry that still waits for validation is not overwritten by
/// frames still in flight.
pub const DESYNC_MAX_FRAMES: usize = 3 * MAX_PREDICTION;

} // verus!
