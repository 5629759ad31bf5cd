//! The state snapshot store: the serialized physics state of the last
//! completed frame and its checksum, restored only on a rollback.
use vstd::prelude::*;

use crate::checksum::{fletcher16, fletcher16_spec};
use crate::frames::{Frame, RollbackStatus};

verus! {

/// Frame of the engine's boot state: a rollback to it or before needs no
/// restore, since the boot state is already in place.
pub const BOOT_FRAME: Frame = 1;

/// The serialized physics state of the last completed frame and its checksum.
#[derive(Clone, PartialEq, Eq, Debug, Default, Hash)]
pub struct PhysicsRollbackState {
    pub rapier_state: Option<Vec<u8>>,
    pub rapier_checksum: u16,
}

/// The bytes that a store holds, as a sequence.
pub open spec fn state_bytes(s: &PhysicsRollbackState) -> Option<Seq<u8>> {
    match s.rapier_state {
        Some(v) => Some(v@),
        None => None,
    }
}

/// A rollback that calls for the saved state to be put back into the engine.
pub open spec fn needs_restore(status: RollbackStatus) -> bool {
    status.is_rollback && status.rollback_frame > BOOT_FRAME
}

/// What a restore hands back to the engine, given the bytes that the store holds.
pub open spec fn restored(bytes: Option<Seq<u8>>, status: RollbackStatus) -> Option<Seq<u8>> {
    if needs_restore(status) {
        bytes
    } else {
        None
    }
}

/// Whether this tick's status calls for a restore.
pub fn should_restore(status: &RollbackStatus) -> (r: bool)
    ensures
        r == needs_restore(*status),
{
    status.is_rollback && status.rollback_frame > BOOT_FRAME
}

impl PhysicsRollbackState {
    /// A store that holds `serialized` and its checksum.
    pub fn save(serialized: Vec<u8>) -> (r: Self)
        ensures
            state_bytes(&r) == Some(serialized@),
            r.rapier_checksum == fletcher16_spec(serialized@),
    {
        let rapier_checksum = fletcher16(serialized.as_slice());
        PhysicsRollbackState { rapier_state: Some(serialized), rapier_checksum }
    }

    /// Keeps the state serialized at the end of a frame; a failed
    /// serialization (`None`) leaves the previous snapshot in place.
    pub fn store(&mut self, serialized: Option<Vec<u8>>)
        ensures
            match serialized {
                Some(v) => state_bytes(final(self)) == Some(v@) && final(self).rapier_checksum == fletcher16_spec(v@),
                None => *final(self) == *old(self),
            },
    {
        match serialized {
            Some(v) => {
                *self = Self::save(v);
            },
            None => {},
        }
    }

    /// The bytes to deserialize back into the engine on this tick: the saved
    /// state when the status calls for a restore, and `None` otherwise or when
    /// nothing was saved.
    pub fn restore(&self, status: &RollbackStatus) -> (r: Option<&Vec<u8>>)
        ensures
            match r {
                Some(v) => restored(state_bytes(self), *status) == Some(v@),
                None => restored(state_bytes(self), *status) is None,
            },
    {
        if should_restore(status) {
            match &self.rapier_state {
                Some(v) => Some(v),
                None => None,
            }
        } else {
            None
        }
    }
}

/// Saving bytes and restoring on a tick that calls for it hands back exactly
/// those bytes, whose checksum is the one that was stored.
pub proof fn lemma_restore_after_save(saved: PhysicsRollbackState, bytes: Seq<u8>, status: RollbackStatus)
    requires
        state_bytes(&saved) == Some(bytes),
        saved.rapier_checksum == fletcher16_spec(bytes),
        needs_restore(status),
    ensures
        restored(state_bytes(&saved), status) == Some(bytes),
        restored(state_bytes(&saved), status) matches Some(b) && fletcher16_spec(b) == saved.rapier_checksum,
{
}

} // verus!
