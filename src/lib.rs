//! Rollback-and-desync-detection core for deterministic peer-to-peer
//! simulations: frame bookkeeping, checksum history buffers, the desync
//! validator, the physics-enable gate and the state snapshot store.
use vstd::prelude::*;

pub mod checksum;
pub mod config;
pub mod desync;
pub mod frames;
pub mod physics;
pub mod random_movement;
pub mod rollback;
pub mod snapshot;
pub mod tick;

verus! {

} // verus!
