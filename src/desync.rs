//! Frame-hash ring buffers and the desync validator: the checksum of each
//! locally simulated frame is kept beside the checksums received from the
//! remote peer, and confirmed frames that neither peer can still roll back are
//! compared.
use vstd::prelude::*;
use vstd::arithmetic::div_mod::lemma_mod_multiples_vanish;

use crate::config::DESYNC_MAX_FRAMES;
use crate::frames::{Frame, ValidatableFrame};

verus! {

/// What is kept of a frame simulated locally.
#[derive(Copy, Clone, PartialEq, Eq, Debug, Default, Hash)]
pub struct FrameHash {
    /// The frame number for this entry.
    pub frame: Frame,
    /// Checksum of the physics state at the end of the frame.
    pub rapier_checksum: u16,
    /// The network session has confirmed every input of the frame.
    pub confirmed: bool,
    /// The checksum has been sent to the other player.
    pub sent: bool,
    /// The checksum has been compared with the other player's.
    pub validated: bool,
}

/// What is kept of a frame checksum received from the other player.
#[derive(Copy, Clone, PartialEq, Eq, Debug, Default, Hash)]
pub struct RxFrameHash {
    /// The frame number for this entry.
    pub frame: Frame,
    /// Checksum of the remote physics state at the end of the frame.
    pub rapier_checksum: u16,
    /// The checksum has been compared with the local one.
    pub validated: bool,
}

/// Ring buffer of the checksums of frames simulated locally, indexed by frame
/// modulo its size.
#[derive(Copy, Clone, PartialEq, Eq, Debug, Hash)]
pub struct FrameHashes(pub [FrameHash; DESYNC_MAX_FRAMES]);

/// Ring buffer of the checksums received from the other player, indexed as
/// [`FrameHashes`].
#[derive(Copy, Clone, PartialEq, Eq, Debug, Hash)]
pub struct RxFrameHashes(pub [RxFrameHash; DESYNC_MAX_FRAMES]);

/// The failures that desync detection reports.
#[derive(Copy, Clone, PartialEq, Eq, Debug)]
pub enum DesyncError {
    /// A confirmed, validatable frame has different checksums on the two peers.
    ChecksumMismatch { frame: Frame, local_checksum: u16, remote_checksum: u16 },
    /// The other player sent two different checksums for one frame.
    ConflictingRemote { frame: Frame, held_checksum: u16, received_checksum: u16 },
}

/// How a checksum received from the other player was taken in.
#[derive(Copy, Clone, PartialEq, Eq, Debug)]
pub enum RxOutcome {
    /// Stored in its slot, to be validated.
    Stored,
    /// The frame carries nothing to compare (the boot frame or no frame).
    Ignored,
    /// The slot already holds this frame with this checksum.
    Duplicate,
    /// The slot already holds a newer frame.
    Stale,
}

/// The slot of `frame`: the frame modulo the buffer size, never negative.
pub open spec fn slot_of(frame: int) -> int {
    frame % (DESYNC_MAX_FRAMES as int)
}

/// Slot of the ring buffers that holds `frame`.
pub fn slot_index(frame: Frame) -> (r: usize)
    ensures
        r as int == slot_of(frame as int),
        r < DESYNC_MAX_FRAMES,
{
    let n: i64 = DESYNC_MAX_FRAMES as i64;
    let shifted: i64 = frame as i64 + n * 2147483648i64;
    proof {
        lemma_mod_multiples_vanish(2147483648int, frame as int, n as int);
    }
    let r: u64 = (shifted as u64) % (n as u64);
    r as usize
}

/// A local entry that records `frame` with `checksum`.
pub open spec fn recorded_entry(frame: Frame, checksum: u16, confirmed_frame: Frame) -> FrameHash {
    FrameHash {
        frame,
        rapier_checksum: checksum,
        confirmed: frame == confirmed_frame,
        sent: false,
        validated: false,
    }
}

/// The entry with its confirmation updated for the session's confirmed frame.
/// Frame 0 is the boot frame, which peers never exchange.
pub open spec fn confirmed_entry(e: FrameHash, confirmed_frame: Frame) -> FrameHash {
    if 0 < e.frame <= confirmed_frame {
        FrameHash { confirmed: true, ..e }
    } else {
        e
    }
}

/// The buffer with every entry's confirmation updated for the confirmed frame.
pub open spec fn confirmed_all(s: Seq<FrameHash>, confirmed_frame: Frame) -> Seq<FrameHash> {
    s.map_values(|e: FrameHash| confirmed_entry(e, confirmed_frame))
}

/// An entry whose checksum is due to be sent to the other player.
pub open spec fn is_sendable(e: FrameHash, validatable_frame: Frame) -> bool {
    e.confirmed && !e.sent && e.frame < validatable_frame
}

/// The first slot at or after `k` due to be sent, if any.
pub open spec fn first_sendable_from(s: Seq<FrameHash>, validatable_frame: Frame, k: int) -> Option<int>
    decreases s.len() - k,
{
    if k < 0 || k >= s.len() {
        None
    } else if is_sendable(s[k], validatable_frame) {
        Some(k)
    } else {
        first_sendable_from(s, validatable_frame, k + 1)
    }
}

/// The first slot due to be sent, if any.
pub open spec fn first_sendable(s: Seq<FrameHash>, validatable_frame: Frame) -> Option<int> {
    first_sendable_from(s, validatable_frame, 0)
}

/// The slot that the scan picks is due to be sent, and no slot before it is.
pub proof fn lemma_first_sendable(s: Seq<FrameHash>, validatable_frame: Frame, k: int)
    requires
        0 <= k,
    ensures
        first_sendable_from(s, validatable_frame, k) matches Some(j) ==> k <= j < s.len() && is_sendable(s[j], validatable_frame)
            && forall|m: int| k <= m < j ==> !is_sendable(#[trigger] s[m], validatable_frame),
        first_sendable_from(s, validatable_frame, k) is None ==> forall|m: int| k <= m < s.len() ==> !is_sendable(#[trigger] s[m], validatable_frame),
    decreases s.len() - k,
{
    if k < s.len() && !is_sendable(s[k], validatable_frame) {
        lemma_first_sendable(s, validatable_frame, k + 1);
    }
}

/// The buffer with slot `i` marked as sent.
pub open spec fn mark_sent_spec(s: Seq<FrameHash>, i: int) -> Seq<FrameHash> {
    s.update(i, FrameHash { sent: true, ..s[i] })
}

/// An all-empty local entry.
pub open spec fn empty_hash() -> FrameHash {
    FrameHash { frame: 0, rapier_checksum: 0, confirmed: false, sent: false, validated: false }
}

/// An all-empty remote entry.
pub open spec fn empty_rx_hash() -> RxFrameHash {
    RxFrameHash { frame: 0, rapier_checksum: 0, validated: false }
}

impl Default for FrameHashes {
    /// A buffer of empty entries.
    fn default() -> (r: Self)
        ensures
            forall|i: int| 0 <= i < DESYNC_MAX_FRAMES ==> #[trigger] r.0[i] == empty_hash(),
    {
        let e = FrameHash { frame: 0, rapier_checksum: 0, confirmed: false, sent: false, validated: false };
        FrameHashes([e; DESYNC_MAX_FRAMES])
    }
}

impl Default for RxFrameHashes {
    /// A buffer of empty entries.
    fn default() -> (r: Self)
        ensures
            forall|i: int| 0 <= i < DESYNC_MAX_FRAMES ==> #[trigger] r.0[i] == empty_rx_hash(),
    {
        let e = RxFrameHash { frame: 0, rapier_checksum: 0, validated: false };
        RxFrameHashes([e; DESYNC_MAX_FRAMES])
    }
}

impl FrameHashes {
    /// Records the checksum of `frame` at the end of the frame, in the frame's
    /// slot: not yet sent nor validated, and confirmed when the session's
    /// confirmed frame is this frame.
    pub fn record(&mut self, frame: Frame, checksum: u16, confirmed_frame: Frame)
        ensures
            final(self).0@ == old(self).0@.update(slot_of(frame as int), recorded_entry(frame, checksum, confirmed_frame)),
    {
        let i = slot_index(frame);
        let e = FrameHash {
            frame,
            rapier_checksum: checksum,
            confirmed: frame == confirmed_frame,
            sent: false,
            validated: false,
        };
        self.0[i] = e;
    }

    /// Marks as confirmed every recorded frame up to the session's confirmed
    /// frame.
    pub fn confirm_up_to(&mut self, confirmed_frame: Frame)
        ensures
            final(self).0@ == confirmed_all(old(self).0@, confirmed_frame),
    {
        let ghost start = self.0;
        let mut i: usize = 0;
        while i < DESYNC_MAX_FRAMES
            invariant
                i <= DESYNC_MAX_FRAMES,
                forall|j: int| 0 <= j < i ==> #[trigger] self.0[j] == confirmed_entry(start[j], confirmed_frame),
                forall|j: int| i <= j < DESYNC_MAX_FRAMES ==> #[trigger] self.0[j] == start[j],
            decreases DESYNC_MAX_FRAMES - i,
        {
            let e = self.0[i];
            if 0 < e.frame && e.frame <= confirmed_frame {
                self.0[i] = FrameHash { confirmed: true, ..e };
            }
            i = i + 1;
        }
        assert(self.0@ =~= confirmed_all(start@, confirmed_frame));
    }

    /// Marks slot `slot` as sent.
    pub fn mark_sent(&mut self, slot: usize)
        requires
            slot < DESYNC_MAX_FRAMES,
        ensures
            final(self).0@ == mark_sent_spec(old(self).0@, slot as int),
    {
        let e = self.0[slot];
        self.0[slot] = FrameHash { sent: true, ..e };
    }

    /// Picks the first entry that is confirmed, not yet sent and below the
    /// validatable boundary, marks it as sent and returns its frame and
    /// checksum; `None` when no entry is due.
    pub fn take_unsent(&mut self, validatable_frame: ValidatableFrame) -> (r: Option<(Frame, u16)>)
        ensures
            match first_sendable(old(self).0@, validatable_frame.0) {
                None => r.is_none() && final(self).0@ == old(self).0@,
                Some(i) => r == Some((old(self).0[i].frame, old(self).0[i].rapier_checksum))
                    && final(self).0@ == mark_sent_spec(old(self).0@, i),
            },
    {
        let mut i: usize = 0;
        while i < DESYNC_MAX_FRAMES
            invariant
                i <= DESYNC_MAX_FRAMES,
                self.0@ == old(self).0@,
                first_sendable(self.0@, validatable_frame.0) == first_sendable_from(self.0@, validatable_frame.0, i as int),
            decreases DESYNC_MAX_FRAMES - i,
        {
            let e = self.0[i];
            if e.confirmed && !e.sent && validatable_frame.is_validatable(e.frame) {
                self.mark_sent(i);
                return Some((e.frame, e.rapier_checksum));
            }
            i = i + 1;
        }
        None
    }
}

/// The remote buffer and the outcome after `frame` and `checksum` arrive:
/// frames up to the boot frame carry nothing; a frame newer than the one in its
/// slot replaces it, unvalidated; an older one is stale; the same frame again
/// is a duplicate, or an error if its checksum differs.
pub open spec fn receive_spec(s: Seq<RxFrameHash>, frame: Frame, checksum: u16) -> (Seq<RxFrameHash>, Result<RxOutcome, DesyncError>) {
    let i = slot_of(frame as int);
    let held = s[i];
    if frame <= 0 {
        (s, Ok(RxOutcome::Ignored))
    } else if held.frame < frame {
        (s.update(i, RxFrameHash { frame, rapier_checksum: checksum, validated: false }), Ok(RxOutcome::Stored))
    } else if held.frame > frame {
        (s, Ok(RxOutcome::Stale))
    } else if held.rapier_checksum == checksum {
        (s, Ok(RxOutcome::Duplicate))
    } else {
        (s, Err(DesyncError::ConflictingRemote { frame, held_checksum: held.rapier_checksum, received_checksum: checksum }))
    }
}

impl RxFrameHashes {
    /// Takes in the last confirmed frame and checksum that the other player
    /// piggy-backed on its input. Frames up to the boot frame carry nothing; a
    /// frame newer than the one in its slot replaces it, unvalidated; an older
    /// one is stale and ignored; the same frame again is a duplicate, and an
    /// error if its checksum differs. Only `Stored` changes the buffer.
    pub fn receive(&mut self, frame: Frame, checksum: u16) -> (r: Result<RxOutcome, DesyncError>)
        ensures
            (final(self).0@, r) == receive_spec(old(self).0@, frame, checksum),
    {
        if frame <= 0 {
            return Ok(RxOutcome::Ignored);
        }
        let i = slot_index(frame);
        let held = self.0[i];
        if held.frame < frame {
            self.0[i] = RxFrameHash { frame, rapier_checksum: checksum, validated: false };
            Ok(RxOutcome::Stored)
        } else if held.frame > frame {
            Ok(RxOutcome::Stale)
        } else if held.rapier_checksum == checksum {
            Ok(RxOutcome::Duplicate)
        } else {
            Err(DesyncError::ConflictingRemote {
                frame,
                held_checksum: held.rapier_checksum,
                received_checksum: checksum,
            })
        }
    }
}

/// Both entries of a slot are due for comparison: the same confirmed frame,
/// validated on neither side, and below the validatable boundary.
pub open spec fn is_comparable(l: FrameHash, r: RxFrameHash, validatable_frame: Frame) -> bool {
    &&& r.frame > 0
    &&& !r.validated
    &&& l.frame == r.frame
    &&& l.confirmed
    &&& !l.validated
    &&& l.frame < validatable_frame
}

/// A slot whose entries are due for comparison and disagree.
pub open spec fn is_mismatch(l: FrameHash, r: RxFrameHash, validatable_frame: Frame) -> bool {
    is_comparable(l, r, validatable_frame) && l.rapier_checksum != r.rapier_checksum
}

/// The local entry after validation of its slot.
pub open spec fn validated_local(l: FrameHash, r: RxFrameHash, validatable_frame: Frame) -> FrameHash {
    if is_comparable(l, r, validatable_frame) {
        FrameHash { validated: true, ..l }
    } else {
        l
    }
}

/// The remote entry after validation of its slot.
pub open spec fn validated_remote(l: FrameHash, r: RxFrameHash, validatable_frame: Frame) -> RxFrameHash {
    if is_comparable(l, r, validatable_frame) {
        RxFrameHash { validated: true, ..r }
    } else {
        r
    }
}

/// Slots below `k` have been validated and the others are untouched.
pub open spec fn validated_below(
    l0: Seq<FrameHash>,
    r0: Seq<RxFrameHash>,
    l1: Seq<FrameHash>,
    r1: Seq<RxFrameHash>,
    validatable_frame: Frame,
    k: int,
) -> bool {
    &&& l1.len() == l0.len()
    &&& r1.len() == r0.len()
    &&& forall|j: int| 0 <= j < k ==> #[trigger] l1[j] == validated_local(l0[j], r0[j], validatable_frame)
    &&& forall|j: int| 0 <= j < k ==> #[trigger] r1[j] == validated_remote(l0[j], r0[j], validatable_frame)
    &&& forall|j: int| k <= j < l0.len() ==> #[trigger] l1[j] == l0[j]
    &&& forall|j: int| k <= j < r0.len() ==> #[trigger] r1[j] == r0[j]
}

/// What one run of the validator does to the two buffers (`l0`, `r0` before,
/// `l1`, `r1` after) and what it returns: `Ok` exactly when no slot
/// disagrees, with every comparable slot validated; otherwise the first slot
/// that disagrees is reported, the slots before it are validated and the
/// others are untouched.
pub open spec fn validation_outcome(
    l0: Seq<FrameHash>,
    r0: Seq<RxFrameHash>,
    l1: Seq<FrameHash>,
    r1: Seq<RxFrameHash>,
    validatable_frame: Frame,
    r: Result<(), DesyncError>,
) -> bool {
    &&& r.is_ok() <==> forall|i: int| 0 <= i < DESYNC_MAX_FRAMES ==> !is_mismatch(#[trigger] l0[i], r0[i], validatable_frame)
    &&& r.is_ok() ==> validated_below(l0, r0, l1, r1, validatable_frame, DESYNC_MAX_FRAMES as int)
    &&& r.is_err() ==> exists|i: int|
        0 <= i < DESYNC_MAX_FRAMES && is_mismatch(#[trigger] l0[i], r0[i], validatable_frame)
            && (forall|j: int| 0 <= j < i ==> !is_mismatch(#[trigger] l0[j], r0[j], validatable_frame))
            && r == Err::<(), DesyncError>(DesyncError::ChecksumMismatch {
                frame: l0[i].frame,
                local_checksum: l0[i].rapier_checksum,
                remote_checksum: r0[i].rapier_checksum,
            })
            && validated_below(l0, r0, l1, r1, validatable_frame, i)
}

/// Compares, slot by slot, the local and remote checksums of every frame that
/// both sides hold, that is confirmed and unvalidated on both, and that lies
/// below the validatable boundary. Equal checksums mark both entries
/// validated. The first slot whose checksums differ ends the scan with
/// `ChecksumMismatch`: the peers have diverged. `Ok` exactly when no slot
/// disagrees, and then every comparable slot is validated.
pub fn frame_validator(
    hashes: &mut FrameHashes,
    rx_hashes: &mut RxFrameHashes,
    validatable_frame: ValidatableFrame,
) -> (r: Result<(), DesyncError>)
    ensures
        validation_outcome(
            old(hashes).0@,
            old(rx_hashes).0@,
            final(hashes).0@,
            final(rx_hashes).0@,
            validatable_frame.0,
            r,
        ),
{
    let ghost l0 = hashes.0@;
    let ghost r0 = rx_hashes.0@;
    let mut i: usize = 0;
    while i < DESYNC_MAX_FRAMES
        invariant
            i <= DESYNC_MAX_FRAMES,
            l0 == old(hashes).0@,
            r0 == old(rx_hashes).0@,
            l0.len() == DESYNC_MAX_FRAMES,
            r0.len() == DESYNC_MAX_FRAMES,
            validated_below(l0, r0, hashes.0@, rx_hashes.0@, validatable_frame.0, i as int),
            forall|j: int| 0 <= j < i ==> !is_mismatch(#[trigger] l0[j], r0[j], validatable_frame.0),
        decreases DESYNC_MAX_FRAMES - i,
    {
        let rx = rx_hashes.0[i];
        let sx = hashes.0[i];
        assert(sx == l0[i as int] && rx == r0[i as int]);
        if rx.frame > 0 && !rx.validated && sx.frame == rx.frame && sx.confirmed && !sx.validated
            && validatable_frame.is_validatable(sx.frame) {
            if sx.rapier_checksum != rx.rapier_checksum {
                assert(is_mismatch(l0[i as int], r0[i as int], validatable_frame.0));
                return Err(DesyncError::ChecksumMismatch {
                    frame: sx.frame,
                    local_checksum: sx.rapier_checksum,
                    remote_checksum: rx.rapier_checksum,
                });
            }
            hashes.0[i] = FrameHash { validated: true, ..sx };
            rx_hashes.0[i] = RxFrameHash { validated: true, ..rx };
        }
        i = i + 1;
    }
    Ok(())
}

/// Marking an entry as sent a second time changes nothing, and the outbound
/// scan never picks an entry again once it is marked as sent.
pub proof fn lemma_mark_sent_idempotent(s: Seq<FrameHash>, i: int, validatable_frame: Frame)
    requires
        0 <= i < s.len(),
    ensures
        mark_sent_spec(mark_sent_spec(s, i), i) == mark_sent_spec(s, i),
        first_sendable(mark_sent_spec(s, i), validatable_frame) != Some(i),
        first_sendable(mark_sent_spec(mark_sent_spec(s, i), i), validatable_frame) != Some(i),
{
    let m = mark_sent_spec(s, i);
    assert(mark_sent_spec(m, i) =~= m);
    assert(!is_sendable(m[i], validatable_frame));
    lemma_first_sendable(m, validatable_frame, 0);
}

/// Peers whose checksums agree on every frame that both buffers hold never
/// see a desync: the validator succeeds and validates every comparable slot.
pub proof fn lemma_agreeing_peers_validate(
    l0: Seq<FrameHash>,
    r0: Seq<RxFrameHash>,
    l1: Seq<FrameHash>,
    r1: Seq<RxFrameHash>,
    validatable_frame: Frame,
    r: Result<(), DesyncError>,
)
    requires
        l0.len() == DESYNC_MAX_FRAMES,
        r0.len() == DESYNC_MAX_FRAMES,
        forall|i: int| 0 <= i < DESYNC_MAX_FRAMES && #[trigger] l0[i].frame == r0[i].frame ==> l0[i].rapier_checksum == r0[i].rapier_checksum,
        validation_outcome(l0, r0, l1, r1, validatable_frame, r),
    ensures
        r is Ok,
        forall|i: int| 0 <= i < DESYNC_MAX_FRAMES && is_comparable(#[trigger] l0[i], r0[i], validatable_frame) ==> l1[i].validated && r1[i].validated,
{
    assert forall|i: int| 0 <= i < DESYNC_MAX_FRAMES implies !is_mismatch(#[trigger] l0[i], r0[i], validatable_frame) by {
        if l0[i].frame == r0[i].frame {
            assert(l0[i].rapier_checksum == r0[i].rapier_checksum);
        }
    }
    assert forall|i: int| 0 <= i < DESYNC_MAX_FRAMES && is_comparable(#[trigger] l0[i], r0[i], validatable_frame) implies l1[i].validated && r1[i].validated by {
        assert(l1[i] == validated_local(l0[i], r0[i], validatable_frame));
        assert(r1[i] == validated_remote(l0[i], r0[i], validatable_frame));
    }
}

/// A desync is reported only for a frame that both peers hold, that is
/// confirmed locally and lies below the validatable boundary: never while it
/// may still be rolled back.
pub proof fn lemma_mismatch_only_when_validatable(
    l0: Seq<FrameHash>,
    r0: Seq<RxFrameHash>,
    l1: Seq<FrameHash>,
    r1: Seq<RxFrameHash>,
    validatable_frame: Frame,
    r: Result<(), DesyncError>,
)
    requires
        validation_outcome(l0, r0, l1, r1, validatable_frame, r),
        r is Err,
    ensures
        r->Err_0 matches DesyncError::ChecksumMismatch { frame, local_checksum, remote_checksum }
            && frame < validatable_frame && frame > 0 && local_checksum != remote_checksum
            && exists|i: int| 0 <= i < DESYNC_MAX_FRAMES && #[trigger] l0[i].frame == frame && l0[i].confirmed && r0[i].frame == frame,
{
}

} // verus!
