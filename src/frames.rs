//! Frame bookkeeping: rollback detection, the session frame and the
//! boundary below which frames may be validated between peers.
use vstd::prelude::*;

pub use ggrs::Frame;

verus! {

/// "No frame": nothing to report yet.
pub const NULL_FRAME: Frame = -1;

/// Frame observed on the previous tick, kept outside the rolled-back state so
/// that a rollback can be noticed.
#[derive(Copy, Clone, PartialEq, Eq, Debug, Default, Hash)]
pub struct LastFrame(pub Frame);

/// Frame that the network session reports as its own current frame.
#[derive(Copy, Clone, PartialEq, Eq, Debug, Default, Hash)]
pub struct CurrentSessionFrame(pub Frame);

/// Highest frame for which the inputs of every player are confirmed.
#[derive(Copy, Clone, PartialEq, Eq, Debug, Default, Hash)]
pub struct ConfirmedFrame(pub Frame);

/// Rollback and replay status derived once per tick.
#[derive(Copy, Clone, PartialEq, Eq, Debug, Default, Hash)]
pub struct RollbackStatus {
    pub is_rollback: bool,
    pub is_replay: bool,
    pub rollback_frame: Frame,
    pub last_frame: Frame,
}

/// The kind of network session that drives the simulation, with what the
/// frame bookkeeping needs from it.
#[derive(Copy, Clone, PartialEq, Eq, Debug)]
pub enum SessionKind {
    /// A local session that checks determinism by rolling back on its own.
    SyncTest,
    /// A peer-to-peer session, which reports its own current frame.
    P2P { current_frame: Frame },
    /// A session that only watches other peers.
    Spectator,
}

/// The session frame after an update on a tick whose rollback counter reads
/// `current_frame`.
pub open spec fn session_frame_after(old_frame: Frame, current_frame: Frame, session: Option<SessionKind>) -> Frame {
    match session {
        None => old_frame,
        Some(SessionKind::P2P { current_frame: f }) => f,
        Some(_) => current_frame,
    }
}

/// Copies the frame that the session reports into `current_session_frame`; a
/// local or spectating session follows the rollback counter. Without a session
/// the value is left as it was.
pub fn update_current_session_frame(
    current_session_frame: &mut CurrentSessionFrame,
    current_frame: Frame,
    session: Option<SessionKind>,
)
    ensures
        final(current_session_frame).0 == session_frame_after(old(current_session_frame).0, current_frame, session),
{
    match session {
        Some(SessionKind::SyncTest) => current_session_frame.0 = current_frame,
        Some(SessionKind::P2P { current_frame: f }) => current_session_frame.0 = f,
        Some(SessionKind::Spectator) => current_session_frame.0 = current_frame,
        None => {},
    }
}

/// The status after one tick that observes `current_frame`, with the session at
/// `session_frame`.
pub open spec fn rollback_step(status: RollbackStatus, current_frame: Frame, session_frame: Frame) -> RollbackStatus {
    let is_rollback = current_frame <= status.last_frame;
    RollbackStatus {
        is_rollback,
        is_replay: is_rollback || session_frame > current_frame,
        rollback_frame: if is_rollback { current_frame } else { status.rollback_frame },
        last_frame: current_frame,
    }
}

/// Derives the rollback status of the tick that observes `current_frame`. A
/// frame that did not advance past the previous one is a rollback; a tick is a
/// replay when it is a rollback or the session is ahead of the simulation.
pub fn update_rollback_status(
    current_frame: Frame,
    current_session_frame: CurrentSessionFrame,
    rollback_status: &mut RollbackStatus,
)
    ensures
        *final(rollback_status) == rollback_step(*old(rollback_status), current_frame, current_session_frame.0),
{
    rollback_status.is_rollback = rollback_status.last_frame >= current_frame;
    rollback_status.is_replay = rollback_status.is_rollback || current_session_frame.0 > current_frame;
    if rollback_status.is_rollback {
        rollback_status.rollback_frame = current_frame;
    }
    rollback_status.last_frame = current_frame;
}

/// The status after a sequence of ticks, each a pair of the observed frame and
/// the session frame.
pub open spec fn run_ticks(status: RollbackStatus, ticks: Seq<(Frame, Frame)>) -> RollbackStatus
    decreases ticks.len(),
{
    if ticks.len() == 0 {
        status
    } else {
        let prev = run_ticks(status, ticks.drop_last());
        rollback_step(prev, ticks.last().0, ticks.last().1)
    }
}

/// Over any sequence of ticks, the tick at position `i` is a rollback exactly
/// when its frame is not above the frame of the tick before it (or, for the
/// first tick, the last frame of the starting status).
pub proof fn lemma_rollback_iff_not_advanced(status: RollbackStatus, ticks: Seq<(Frame, Frame)>, i: int)
    requires
        0 <= i < ticks.len(),
    ensures
        run_ticks(status, ticks.take(i + 1)).is_rollback == (ticks[i].0 <= (if i == 0 {
            status.last_frame
        } else {
            ticks[i - 1].0
        })),
        run_ticks(status, ticks.take(i + 1)).last_frame == ticks[i].0,
{
    let t = ticks.take(i + 1);
    assert(t.drop_last() =~= ticks.take(i));
    assert(t.last() == ticks[i]);
    let prev = run_ticks(status, ticks.take(i));
    assert(run_ticks(status, t) == rollback_step(prev, ticks[i].0, ticks[i].1));
    if i > 0 {
        let p = ticks.take(i);
        assert(p.drop_last() =~= ticks.take(i - 1));
        assert(p.last() == ticks[i - 1]);
        assert(run_ticks(status, p).last_frame == ticks[i - 1].0);
    } else {
        assert(ticks.take(0) =~= Seq::<(Frame, Frame)>::empty());
        assert(prev == status);
    }
}

/// The validatable boundary: the smallest of the three frames less the
/// prediction window, held at the least representable frame.
pub open spec fn validatable_frame_spec(current: Frame, session: Frame, confirmed: Frame, max_prediction_window: usize) -> Frame {
    let m = if current <= session && current <= confirmed {
        current
    } else if session <= confirmed {
        session
    } else {
        confirmed
    };
    let v = m - max_prediction_window;
    if v < i32::MIN {
        i32::MIN
    } else {
        v as Frame
    }
}

/// Oldest frame boundary that neither peer can still roll back: frames below it
/// may be validated and their checksums sent.
#[derive(Copy, Clone, PartialEq, Eq, Debug, Hash)]
pub struct ValidatableFrame(pub Frame);

impl Default for ValidatableFrame {
    /// Nothing is validatable before a session exists.
    fn default() -> (r: Self)
        ensures
            r.0 == i32::MIN,
    {
        ValidatableFrame(i32::MIN)
    }
}

impl ValidatableFrame {
    /// Computes the boundary from the current, session and confirmed frames and
    /// the prediction window.
    pub fn recompute(current: Frame, session: Frame, confirmed: Frame, max_prediction_window: usize) -> (r: Frame)
        ensures
            r == validatable_frame_spec(current, session, confirmed, max_prediction_window),
    {
        let m = if current <= session && current <= confirmed {
            current
        } else if session <= confirmed {
            session
        } else {
            confirmed
        };
        let room: u64 = (m as i64 - i32::MIN as i64) as u64;
        if max_prediction_window as u64 > room {
            i32::MIN
        } else {
            (m as i64 - max_prediction_window as i64) as Frame
        }
    }

    /// Recomputes the boundary in place.
    pub fn update(&mut self, current: Frame, session: Frame, confirmed: Frame, max_prediction_window: usize)
        ensures
            final(self).0 == validatable_frame_spec(current, session, confirmed, max_prediction_window),
    {
        self.0 = Self::recompute(current, session, confirmed, max_prediction_window);
    }

    /// Whether `frame` is old enough to be validated.
    pub fn is_validatable(&self, frame: Frame) -> (r: bool)
        ensures
            r == (frame < self.0),
    {
        frame < self.0
    }
}

/// The boundary never exceeds the smallest of the three frames less the
/// window, and equals it wherever that difference is representable.
pub proof fn lemma_validatable_bound(current: Frame, session: Frame, confirmed: Frame, max_prediction_window: usize)
    ensures
        ({
            let m = if current <= session && current <= confirmed {
                current as int
            } else if session <= confirmed {
                session as int
            } else {
                confirmed as int
            };
            &&& m <= current && m <= session && m <= confirmed
            &&& (m == current || m == session || m == confirmed)
            &&& m - max_prediction_window >= i32::MIN ==> validatable_frame_spec(current, session, confirmed, max_prediction_window) == m - max_prediction_window
            &&& m - max_prediction_window < i32::MIN ==> validatable_frame_spec(current, session, confirmed, max_prediction_window) == i32::MIN
        }),
{
}

} // verus!
