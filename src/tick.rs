//! All state of the rollback core, owned by the tick loop, and the steps of a
//! frame in their fixed order.
use vstd::prelude::*;

use crate::checksum::fletcher16_spec;
use crate::config::MAX_PREDICTION;
use crate::desync::{
    confirmed_all, empty_hash, empty_rx_hash, frame_validator, receive_spec, recorded_entry, slot_of,
    validation_outcome, DesyncError, FrameHash, FrameHashes, RxFrameHashes, RxOutcome,
};
use crate::frames::{
    rollback_step, session_frame_after, update_current_session_frame, update_rollback_status,
    validatable_frame_spec, ConfirmedFrame, CurrentSessionFrame, Frame, RollbackStatus, SessionKind,
    ValidatableFrame, NULL_FRAME,
};
use crate::physics::{enabled_on, toggle_physics, EnablePhysicsAfter, PhysicsEnabled, WARMUP_FRAMES};
use crate::random_movement::RandomInput;
use crate::rollback::{
    input, input_spec, outbound_hashes_spec, outbound_input, outbound_input_spec, GGRSInput, MovementKeys,
};
use crate::snapshot::{needs_restore, state_bytes, PhysicsRollbackState};

verus! {

/// What the rollback core keeps between ticks, outside the rolled-back
/// simulation state. The snapshot store is not part of it: the session saves
/// and loads it with the simulation, so that after a rollback it holds the
/// state of the frame rolled back to.
#[derive(Clone, PartialEq, Eq, Debug)]
pub struct RollbackCore {
    pub current_session_frame: CurrentSessionFrame,
    pub confirmed_frame: ConfirmedFrame,
    pub rollback_status: RollbackStatus,
    pub validatable_frame: ValidatableFrame,
    pub hashes: FrameHashes,
    pub rx_hashes: RxFrameHashes,
    pub enable_physics_after: EnablePhysicsAfter,
    pub physics_enabled: PhysicsEnabled,
    pub random_input: RandomInput,
}

/// The state at process start. Frames start at zero; nothing is confirmed
/// or validatable yet; both hash buffers are empty; the warm-up window begins
/// at frame 0 and physics is paused; the idle player injects random input.
pub fn startup() -> (r: RollbackCore)
    ensures
        r.current_session_frame.0 == 0,
        r.confirmed_frame.0 == NULL_FRAME,
        r.rollback_status == (RollbackStatus { is_rollback: false, is_replay: false, rollback_frame: 0, last_frame: 0 }),
        r.validatable_frame.0 == i32::MIN,
        forall|i: int| 0 <= i < r.hashes.0@.len() ==> #[trigger] r.hashes.0[i] == empty_hash(),
        forall|i: int| 0 <= i < r.rx_hashes.0@.len() ==> #[trigger] r.rx_hashes.0[i] == empty_rx_hash(),
        r.enable_physics_after == (EnablePhysicsAfter { start: 0, end: WARMUP_FRAMES }),
        !r.physics_enabled.0,
        r.random_input.on,
{
    RollbackCore {
        current_session_frame: CurrentSessionFrame(0),
        confirmed_frame: ConfirmedFrame(NULL_FRAME),
        rollback_status: RollbackStatus { is_rollback: false, is_replay: false, rollback_frame: 0, last_frame: 0 },
        validatable_frame: ValidatableFrame::default(),
        hashes: FrameHashes::default(),
        rx_hashes: RxFrameHashes::default(),
        enable_physics_after: EnablePhysicsAfter::default(),
        physics_enabled: PhysicsEnabled(false),
        random_input: RandomInput { on: true },
    }
}

/// The local buffer after the end of a frame: the new checksum recorded when
/// the state could be serialized, then confirmations brought up to date.
pub open spec fn hashes_at_end(
    s: Seq<FrameHash>,
    frame: Frame,
    serialized: Option<Seq<u8>>,
    confirmed_frame: Frame,
) -> Seq<FrameHash> {
    let recorded = match serialized {
        Some(b) => s.update(slot_of(frame as int), recorded_entry(frame, fletcher16_spec(b), confirmed_frame)),
        None => s,
    };
    confirmed_all(recorded, confirmed_frame)
}

impl RollbackCore {
    /// The first steps of a frame, before any gameplay: the session frame, the
    /// confirmed frame, the rollback status, the validatable boundary and the
    /// physics gate. Returns whether the saved state must be restored into the
    /// engine before the frame runs.
    pub fn begin_frame(&mut self, current_frame: Frame, session: Option<SessionKind>, confirmed_frame: Frame) -> (r: bool)
        ensures
            ({
                let sf = session_frame_after(old(self).current_session_frame.0, current_frame, session);
                &&& final(self).current_session_frame.0 == sf
                &&& final(self).confirmed_frame.0 == confirmed_frame
                &&& final(self).rollback_status == rollback_step(old(self).rollback_status, current_frame, sf)
                &&& final(self).validatable_frame.0 == validatable_frame_spec(current_frame, sf, confirmed_frame, MAX_PREDICTION)
                &&& final(self).physics_enabled.0 == enabled_on(
                    old(self).enable_physics_after.start,
                    old(self).enable_physics_after.end,
                    current_frame,
                )
            }),
            r == needs_restore(final(self).rollback_status),
            final(self).hashes == old(self).hashes,
            final(self).rx_hashes == old(self).rx_hashes,
            final(self).enable_physics_after == old(self).enable_physics_after,
            final(self).random_input == old(self).random_input,
    {
        update_current_session_frame(&mut self.current_session_frame, current_frame, session);
        self.confirmed_frame = ConfirmedFrame(confirmed_frame);
        update_rollback_status(current_frame, self.current_session_frame, &mut self.rollback_status);
        self.validatable_frame.update(current_frame, self.current_session_frame.0, confirmed_frame, MAX_PREDICTION);
        self.physics_enabled = toggle_physics(&self.enable_physics_after, current_frame);
        crate::snapshot::should_restore(&self.rollback_status)
    }

    /// The last steps of a frame, after the physics step: keep the serialized
    /// state in `physics_state` (`None` when serialization failed), record its
    /// checksum for the frame, update confirmations and run the desync
    /// validator.
    pub fn end_frame(
        &mut self,
        current_frame: Frame,
        physics_state: &mut PhysicsRollbackState,
        serialized: Option<Vec<u8>>,
    ) -> (r: Result<(), DesyncError>)
        ensures
            match serialized {
                Some(v) => state_bytes(final(physics_state)) == Some(v@)
                    && final(physics_state).rapier_checksum == fletcher16_spec(v@),
                None => *final(physics_state) == *old(physics_state),
            },
            validation_outcome(
                hashes_at_end(
                    old(self).hashes.0@,
                    current_frame,
                    match serialized {
                        Some(v) => Some(v@),
                        None => None,
                    },
                    old(self).confirmed_frame.0,
                ),
                old(self).rx_hashes.0@,
                final(self).hashes.0@,
                final(self).rx_hashes.0@,
                old(self).validatable_frame.0,
                r,
            ),
            final(self).current_session_frame == old(self).current_session_frame,
            final(self).confirmed_frame == old(self).confirmed_frame,
            final(self).rollback_status == old(self).rollback_status,
            final(self).validatable_frame == old(self).validatable_frame,
            final(self).enable_physics_after == old(self).enable_physics_after,
            final(self).physics_enabled == old(self).physics_enabled,
            final(self).random_input == old(self).random_input,
    {
        let saved = serialized.is_some();
        physics_state.store(serialized);
        if saved {
            let checksum = physics_state.rapier_checksum;
            self.hashes.record(current_frame, checksum, self.confirmed_frame.0);
        }
        self.hashes.confirm_up_to(self.confirmed_frame.0);
        frame_validator(&mut self.hashes, &mut self.rx_hashes, self.validatable_frame)
    }

    /// The message for the local player this frame: its gameplay bits, with
    /// the next local checksum that is due to be sent.
    pub fn outbound(&mut self, keys: MovementKeys, roll: u32) -> (r: GGRSInput)
        ensures
            (r.input, final(self).random_input.on) == input_spec(keys, old(self).physics_enabled.0, old(self).random_input.on, roll),
            r == outbound_input_spec(old(self).hashes.0@, r.input, old(self).validatable_frame.0),
            final(self).hashes.0@ == outbound_hashes_spec(old(self).hashes.0@, old(self).validatable_frame.0),
            final(self).rx_hashes == old(self).rx_hashes,
            final(self).rollback_status == old(self).rollback_status,
            final(self).validatable_frame == old(self).validatable_frame,
    {
        let game_input = input(keys, self.physics_enabled, &mut self.random_input, roll);
        outbound_input(game_input, &mut self.hashes, self.validatable_frame)
    }

    /// Takes in the frame and checksum that the other player piggy-backed on
    /// its input.
    pub fn on_remote_input(&mut self, msg: GGRSInput) -> (r: Result<RxOutcome, DesyncError>)
        ensures
            (final(self).rx_hashes.0@, r) == receive_spec(old(self).rx_hashes.0@, msg.last_confirmed_frame, msg.last_confirmed_checksum),
            final(self).hashes == old(self).hashes,
            final(self).rollback_status == old(self).rollback_status,
            final(self).validatable_frame == old(self).validatable_frame,
    {
        self.rx_hashes.receive(msg.last_confirmed_frame, msg.last_confirmed_checksum)
    }
}

} // verus!
