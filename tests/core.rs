use rollback_core::checksum::fletcher16;
use rollback_core::config::DESYNC_MAX_FRAMES;
use rollback_core::desync::{frame_validator, slot_index, DesyncError, FrameHash, FrameHashes, RxFrameHashes, RxOutcome};
use rollback_core::frames::{
    update_current_session_frame, update_rollback_status, CurrentSessionFrame, RollbackStatus, SessionKind,
    ValidatableFrame, NULL_FRAME,
};
use rollback_core::physics::{pause_physics_test, toggle_physics, EnablePhysicsAfter, WARMUP_FRAMES};
use rollback_core::random_movement::{toggle_random_input, RandomInput};
use rollback_core::rollback::{
    effective_input, input, input_direction, outbound_input, Direction, InputStatus, MovementKeys, INPUT_DOWN,
    INPUT_LEFT, INPUT_RIGHT, INPUT_UP,
};
use rollback_core::physics::PhysicsEnabled;
use rollback_core::snapshot::{should_restore, PhysicsRollbackState};
use rollback_core::tick::{startup, RollbackCore};

#[test]
fn fletcher16_known_vectors() {
    assert_eq!(fletcher16(&[]), 0);
    assert_eq!(fletcher16(&[1]), 0x0101);
    assert_eq!(fletcher16(b"abcde"), 51440);
    assert_eq!(fletcher16(b"abcdef"), 8279);
    assert_eq!(fletcher16(b"abcdefgh"), 1575);
    assert_eq!(fletcher16(&[255]), 0);
}

#[test]
fn fletcher16_is_deterministic_and_order_sensitive() {
    let data: Vec<u8> = (0..200u32).map(|i| (i * 37 % 256) as u8).collect();
    assert_eq!(fletcher16(&data), fletcher16(&data.clone()));
    assert_ne!(fletcher16(&[1, 2]), fletcher16(&[2, 1]));
}

#[test]
fn fletcher16_detects_every_single_bit_flip() {
    let data: Vec<u8> = (0..64u32).map(|i| (i * 91 % 256) as u8).collect();
    let base = fletcher16(&data);
    for i in 0..data.len() {
        for k in 0..8 {
            let mut flipped = data.clone();
            flipped[i] ^= 1u8 << k;
            assert_ne!(fletcher16(&flipped), base, "byte {} bit {}", i, k);
        }
    }
}

#[test]
fn rollback_flags_follow_frame_regressions() {
    let mut status = RollbackStatus::default();
    let session = CurrentSessionFrame(0);
    let frames = [1, 2, 3, 2, 3, 4];
    let expected = [false, false, false, true, false, false];
    for (f, e) in frames.iter().zip(expected.iter()) {
        update_rollback_status(*f, session, &mut status);
        assert_eq!(status.is_rollback, *e, "frame {}", f);
        assert_eq!(status.last_frame, *f);
    }
    assert_eq!(status.rollback_frame, 2);
}

#[test]
fn a_frame_that_does_not_advance_is_a_rollback() {
    let mut status = RollbackStatus::default();
    update_rollback_status(5, CurrentSessionFrame(5), &mut status);
    update_rollback_status(5, CurrentSessionFrame(5), &mut status);
    assert!(status.is_rollback);
    assert!(status.is_replay);
    assert_eq!(status.rollback_frame, 5);
}

#[test]
fn replay_when_session_is_ahead() {
    let mut status = RollbackStatus::default();
    update_rollback_status(4, CurrentSessionFrame(7), &mut status);
    assert!(!status.is_rollback);
    assert!(status.is_replay);
    update_rollback_status(5, CurrentSessionFrame(5), &mut status);
    assert!(!status.is_replay);
}

#[test]
fn session_frame_follows_session_kind() {
    let mut f = CurrentSessionFrame(3);
    update_current_session_frame(&mut f, 10, None);
    assert_eq!(f.0, 3);
    update_current_session_frame(&mut f, 10, Some(SessionKind::SyncTest));
    assert_eq!(f.0, 10);
    update_current_session_frame(&mut f, 11, Some(SessionKind::P2P { current_frame: 14 }));
    assert_eq!(f.0, 14);
    update_current_session_frame(&mut f, 12, Some(SessionKind::Spectator));
    assert_eq!(f.0, 12);
}

#[test]
fn validatable_frame_example() {
    assert_eq!(ValidatableFrame::recompute(100, 100, 95, 8), 87);
    assert_eq!(ValidatableFrame::recompute(90, 100, 95, 8), 82);
    assert_eq!(ValidatableFrame::recompute(100, 80, 95, 0), 80);
    assert_eq!(ValidatableFrame::recompute(i32::MIN + 3, 0, 0, 8), i32::MIN);
    assert_eq!(ValidatableFrame::recompute(0, 0, 0, usize::MAX), i32::MIN);
    let mut v = ValidatableFrame::default();
    assert_eq!(v.0, i32::MIN);
    assert!(!v.is_validatable(i32::MIN));
    v.update(100, 100, 95, 8);
    assert!(v.is_validatable(86));
    assert!(!v.is_validatable(87));
}

#[test]
fn slots_wrap_around() {
    let n = DESYNC_MAX_FRAMES as i32;
    assert_eq!(slot_index(0), 0);
    assert_eq!(slot_index(n), 0);
    assert_eq!(slot_index(n + 2), 2);
    assert_eq!(slot_index(-1), DESYNC_MAX_FRAMES - 1);
    assert_eq!(slot_index(i32::MIN), (i32::MIN as i64).rem_euclid(n as i64) as usize);
}

#[test]
fn record_confirm_and_send_once() {
    let mut h = FrameHashes::default();
    h.record(7, 1234, 5);
    let s = slot_index(7);
    assert_eq!(h.0[s], FrameHash { frame: 7, rapier_checksum: 1234, confirmed: false, sent: false, validated: false });
    let vf = ValidatableFrame(100);
    assert_eq!(h.take_unsent(vf), None);
    h.confirm_up_to(7);
    assert!(h.0[s].confirmed);
    assert_eq!(h.take_unsent(vf), Some((7, 1234)));
    assert_eq!(h.take_unsent(vf), None);
    // Marking the entry as sent again changes nothing and it is not picked again.
    h.mark_sent(s);
    h.mark_sent(s);
    assert!(h.0[s].sent);
    assert_eq!(h.take_unsent(vf), None);
}

#[test]
fn record_marks_confirmed_when_frame_is_the_confirmed_frame() {
    let mut h = FrameHashes::default();
    h.record(9, 1, 9);
    assert!(h.0[slot_index(9)].confirmed);
}

#[test]
fn checksums_are_not_sent_inside_the_prediction_window() {
    let mut h = FrameHashes::default();
    h.record(10, 77, 10);
    assert_eq!(h.take_unsent(ValidatableFrame(10)), None);
    let msg = outbound_input(INPUT_UP, &mut h, ValidatableFrame(10));
    assert_eq!(msg.input, INPUT_UP);
    assert_eq!(msg.last_confirmed_frame, NULL_FRAME);
    assert_eq!(msg.last_confirmed_checksum, 0);
    let msg = outbound_input(0, &mut h, ValidatableFrame(11));
    assert_eq!((msg.last_confirmed_frame, msg.last_confirmed_checksum), (10, 77));
}

#[test]
fn receive_outcomes() {
    let mut rx = RxFrameHashes::default();
    assert_eq!(rx.receive(0, 5), Ok(RxOutcome::Ignored));
    assert_eq!(rx.receive(NULL_FRAME, 5), Ok(RxOutcome::Ignored));
    assert_eq!(rx.receive(20, 5), Ok(RxOutcome::Stored));
    assert_eq!(rx.0[slot_index(20)].frame, 20);
    assert_eq!(rx.receive(20, 5), Ok(RxOutcome::Duplicate));
    let older = 20 - DESYNC_MAX_FRAMES as i32;
    assert_eq!(rx.receive(older, 9), Ok(RxOutcome::Stale));
    assert_eq!(
        rx.receive(20, 6),
        Err(DesyncError::ConflictingRemote { frame: 20, held_checksum: 5, received_checksum: 6 })
    );
    let newer = 20 + DESYNC_MAX_FRAMES as i32;
    assert_eq!(rx.receive(newer, 8), Ok(RxOutcome::Stored));
    assert_eq!(rx.0[slot_index(20)].rapier_checksum, 8);
}

#[test]
fn validator_marks_equal_checksums_and_reports_mismatch() {
    let mut h = FrameHashes::default();
    let mut rx = RxFrameHashes::default();
    h.record(3, 100, 3);
    h.record(4, 200, 4);
    rx.receive(3, 100).unwrap();
    rx.receive(4, 201).unwrap();
    // Neither frame is below the boundary yet.
    assert_eq!(frame_validator(&mut h, &mut rx, ValidatableFrame(3)), Ok(()));
    assert!(!h.0[slot_index(3)].validated);
    // Frame 3 only.
    assert_eq!(frame_validator(&mut h, &mut rx, ValidatableFrame(4)), Ok(()));
    assert!(h.0[slot_index(3)].validated);
    assert!(rx.0[slot_index(3)].validated);
    assert_eq!(
        frame_validator(&mut h, &mut rx, ValidatableFrame(5)),
        Err(DesyncError::ChecksumMismatch { frame: 4, local_checksum: 200, remote_checksum: 201 })
    );
}

#[test]
fn validator_skips_unconfirmed_frames() {
    let mut h = FrameHashes::default();
    let mut rx = RxFrameHashes::default();
    h.record(3, 100, 0);
    rx.receive(3, 999).unwrap();
    assert_eq!(frame_validator(&mut h, &mut rx, ValidatableFrame(50)), Ok(()));
    assert!(!rx.0[slot_index(3)].validated);
}

#[test]
fn snapshot_round_trip() {
    let mut seed: u32 = 12345;
    for len in [0usize, 1, 7, 100, 1000] {
        let bytes: Vec<u8> = (0..len)
            .map(|_| {
                seed = seed.wrapping_mul(1103515245).wrapping_add(12345);
                (seed >> 16) as u8
            })
            .collect();
        let saved = PhysicsRollbackState::save(bytes.clone());
        assert_eq!(saved.rapier_checksum, fletcher16(&bytes));
        let status = RollbackStatus { is_rollback: true, is_replay: true, rollback_frame: 5, last_frame: 5 };
        assert_eq!(saved.restore(&status), Some(&bytes));
    }
}

#[test]
fn restore_only_on_rollback_past_boot_frame() {
    let saved = PhysicsRollbackState::save(vec![1, 2, 3]);
    let boot = RollbackStatus { is_rollback: true, is_replay: true, rollback_frame: 1, last_frame: 1 };
    let plain = RollbackStatus { is_rollback: false, is_replay: false, rollback_frame: 9, last_frame: 9 };
    assert!(!should_restore(&boot));
    assert_eq!(saved.restore(&boot), None);
    assert_eq!(saved.restore(&plain), None);
    let empty = PhysicsRollbackState::default();
    let rb = RollbackStatus { is_rollback: true, is_replay: true, rollback_frame: 2, last_frame: 2 };
    assert_eq!(empty.restore(&rb), None);
}

#[test]
fn failed_serialization_keeps_previous_snapshot() {
    let mut s = PhysicsRollbackState::save(vec![4, 5]);
    let before = s.clone();
    s.store(None);
    assert_eq!(s, before);
    s.store(Some(vec![6]));
    assert_eq!(s.rapier_state, Some(vec![6]));
    assert_eq!(s.rapier_checksum, fletcher16(&[6]));
}

#[test]
fn enable_window_boundaries() {
    let e = EnablePhysicsAfter::with_default_offset(0);
    assert_eq!(WARMUP_FRAMES, 60);
    assert!(e.is_enabled(0));
    for f in 1..60 {
        assert!(!e.is_enabled(f), "frame {}", f);
    }
    for f in 60..200 {
        assert!(e.is_enabled(f), "frame {}", f);
    }
    assert!(e.is_enabled(-5));
    assert_eq!(EnablePhysicsAfter::default(), e);
    assert_eq!(EnablePhysicsAfter::new(3, 4), EnablePhysicsAfter { start: 3, end: 4 });
}

#[test]
fn update_after_default_moves_window() {
    let mut e = EnablePhysicsAfter::default();
    e.update_after_default(100);
    assert_eq!(e, EnablePhysicsAfter { start: 100, end: 160 });
    assert_eq!(toggle_physics(&e, 130), PhysicsEnabled(false));
    assert_eq!(toggle_physics(&e, 160), PhysicsEnabled(true));
}

#[test]
fn pause_test_restarts_window_periodically() {
    let mut e = EnablePhysicsAfter::default();
    pause_physics_test(&mut e, 601);
    assert_eq!(e, EnablePhysicsAfter { start: 0, end: 60 });
    pause_physics_test(&mut e, 600);
    assert_eq!(e, EnablePhysicsAfter { start: 600, end: 660 });
}

#[test]
fn random_input_toggles() {
    let mut r = RandomInput { on: false };
    toggle_random_input(&mut r, true, false);
    assert!(r.on);
    toggle_random_input(&mut r, false, false);
    assert!(r.on);
    toggle_random_input(&mut r, false, true);
    assert!(!r.on);
    toggle_random_input(&mut r, true, true);
    assert!(!r.on);
}

#[test]
fn local_input_bits() {
    let keys = MovementKeys { up: true, down: false, left: true, right: false };
    let mut r = RandomInput { on: false };
    assert_eq!(input(keys, PhysicsEnabled(true), &mut r, 0), INPUT_UP | INPUT_LEFT);
    assert_eq!(input(keys, PhysicsEnabled(false), &mut r, 0), 0);
    let all = MovementKeys { up: true, down: true, left: true, right: true };
    assert_eq!(input(all, PhysicsEnabled(true), &mut r, 0), 0b1111);
}

#[test]
fn random_input_for_idle_player() {
    let idle = MovementKeys::default();
    let mut r = RandomInput { on: true };
    assert_eq!(input(idle, PhysicsEnabled(true), &mut r, 0), INPUT_UP);
    assert_eq!(input(idle, PhysicsEnabled(true), &mut r, 1), INPUT_LEFT);
    assert_eq!(input(idle, PhysicsEnabled(true), &mut r, 2), INPUT_DOWN);
    assert_eq!(input(idle, PhysicsEnabled(true), &mut r, 3), INPUT_RIGHT);
    assert_eq!(input(idle, PhysicsEnabled(true), &mut r, 7), 0);
    assert!(r.on);
    let moving = MovementKeys { right: true, ..MovementKeys::default() };
    assert_eq!(input(moving, PhysicsEnabled(true), &mut r, 0), INPUT_RIGHT);
    assert!(!r.on);
    assert_eq!(input(idle, PhysicsEnabled(true), &mut r, 0), 0);
}

#[test]
fn directions_from_input() {
    let on = PhysicsEnabled(true);
    assert_eq!(input_direction(INPUT_RIGHT | INPUT_UP, InputStatus::Confirmed, on), Some(Direction { horizontal: 1, vertical: 1 }));
    assert_eq!(input_direction(INPUT_LEFT | INPUT_DOWN, InputStatus::Predicted, on), Some(Direction { horizontal: -1, vertical: -1 }));
    assert_eq!(input_direction(INPUT_LEFT | INPUT_RIGHT | INPUT_UP, InputStatus::Confirmed, on), Some(Direction { horizontal: 0, vertical: 1 }));
    assert_eq!(input_direction(INPUT_UP, InputStatus::Disconnected, on), Some(Direction { horizontal: 0, vertical: 0 }));
    assert_eq!(input_direction(INPUT_UP, InputStatus::Confirmed, PhysicsEnabled(false)), None);
    assert_eq!(effective_input(9, InputStatus::Disconnected), 0);
    assert_eq!(effective_input(9, InputStatus::Predicted), 9);
}

#[test]
fn startup_state() {
    let c = startup();
    assert_eq!(c.confirmed_frame.0, NULL_FRAME);
    assert_eq!(c.validatable_frame.0, i32::MIN);
    assert!(c.random_input.on);
    assert!(!c.physics_enabled.0);
    assert_eq!(c.hashes, FrameHashes::default());
    assert_eq!(c.rx_hashes, RxFrameHashes::default());
}

/// A stand-in for a deterministic engine: the serialized state of `frame`.
fn engine_bytes(frame: i32) -> Vec<u8> {
    let x = (frame as u32).wrapping_mul(2654435761);
    vec![x as u8, (x >> 8) as u8, (x >> 16) as u8, (x >> 24) as u8, 42]
}

const LAG: i32 = 3;

/// One tick of a peer; returns the validator's result and the outgoing message.
fn tick(
    peer: &mut RollbackCore,
    store: &mut PhysicsRollbackState,
    frame: i32,
    bytes: Vec<u8>,
) -> (Result<(), DesyncError>, rollback_core::rollback::GGRSInput) {
    let confirmed = if frame - LAG < 0 { NULL_FRAME } else { frame - LAG };
    let restore = peer.begin_frame(frame, Some(SessionKind::P2P { current_frame: frame }), confirmed);
    assert!(!restore);
    let r = peer.end_frame(frame, store, Some(bytes));
    let msg = peer.outbound(MovementKeys::default(), 9);
    (r, msg)
}

#[test]
fn two_peers_identical_ticks_never_desync() {
    let mut a = startup();
    let mut b = startup();
    let mut sa = PhysicsRollbackState::default();
    let mut sb = PhysicsRollbackState::default();
    for f in 1..=200 {
        let (ra, ma) = tick(&mut a, &mut sa, f, engine_bytes(f));
        let (rb, mb) = tick(&mut b, &mut sb, f, engine_bytes(f));
        assert_eq!(ra, Ok(()), "frame {}", f);
        assert_eq!(rb, Ok(()), "frame {}", f);
        assert!(b.on_remote_input(ma).is_ok());
        assert!(a.on_remote_input(mb).is_ok());
    }
    for p in [&mut a, &mut b] {
        let vf = p.validatable_frame;
        assert_eq!(frame_validator(&mut p.hashes, &mut p.rx_hashes, vf), Ok(()));
        let mut checked = 0;
        for i in 0..DESYNC_MAX_FRAMES {
            let l = p.hashes.0[i];
            if l.frame > 0 && vf.is_validatable(l.frame) {
                assert!(l.validated, "frame {}", l.frame);
                assert!(p.rx_hashes.0[i].validated, "frame {}", l.frame);
                assert_eq!(p.rx_hashes.0[i].frame, l.frame);
                checked += 1;
            }
        }
        assert!(checked > 0);
    }
}

#[test]
fn single_frame_divergence_is_caught_when_it_becomes_validatable() {
    let mut a = startup();
    let mut b = startup();
    let mut sa = PhysicsRollbackState::default();
    let mut sb = PhysicsRollbackState::default();
    let mut detected = None;
    for f in 1..=100 {
        let mut bytes_b = engine_bytes(f);
        if f == 50 {
            bytes_b[0] ^= 0b100;
        }
        let (ra, ma) = tick(&mut a, &mut sa, f, engine_bytes(f));
        let (rb, mb) = tick(&mut b, &mut sb, f, bytes_b);
        if ra.is_err() || rb.is_err() {
            let expected_a = Err(DesyncError::ChecksumMismatch {
                frame: 50,
                local_checksum: fletcher16(&engine_bytes(50)),
                remote_checksum: fletcher16(&{
                    let mut x = engine_bytes(50);
                    x[0] ^= 0b100;
                    x
                }),
            });
            assert_eq!(ra, expected_a);
            assert!(matches!(rb, Err(DesyncError::ChecksumMismatch { frame: 50, .. })));
            detected = Some(f);
            break;
        }
        b.on_remote_input(ma).unwrap();
        a.on_remote_input(mb).unwrap();
    }
    // Frame 50 is confirmed at tick 53, below the boundary (confirmed frame less
    // the prediction window) at tick 59, when both peers send it; it is compared
    // on the next tick.
    assert_eq!(detected, Some(60));
}

#[test]
fn warmup_gate_skips_physics_on_first_ticks() {
    let mut c = startup();
    let mut enabled = Vec::new();
    for f in 0..=120 {
        c.begin_frame(f, Some(SessionKind::SyncTest), f);
        enabled.push(c.physics_enabled.0);
    }
    assert!(enabled[0]);
    for f in 1..60 {
        assert!(!enabled[f], "tick {}", f);
    }
    for f in 60..=120 {
        assert!(enabled[f], "tick {}", f);
    }
}

#[test]
fn begin_frame_reports_restore_on_rollback() {
    let mut c = startup();
    let mut store = PhysicsRollbackState::default();
    for f in 1..=10 {
        assert!(!c.begin_frame(f, Some(SessionKind::SyncTest), f));
        c.end_frame(f, &mut store, Some(engine_bytes(f))).unwrap();
        assert_eq!(store.rapier_checksum, fletcher16(&engine_bytes(f)));
    }
    assert!(c.begin_frame(7, Some(SessionKind::SyncTest), 7));
    assert_eq!(store.restore(&c.rollback_status), Some(&engine_bytes(10)));
    c.end_frame(7, &mut store, None).unwrap();
    assert_eq!(store.restore(&c.rollback_status), Some(&engine_bytes(10)));
    assert!(c.begin_frame(1, Some(SessionKind::SyncTest), 1) == false);
}
