//! The watchdog that restarts the replay buffer after the process stood still.

use vstd::prelude::*;

verus! {

/// Milliseconds between two ticks of the watchdog.
pub const TICK_MILLIS: u64 = 1000;

/// The longest gap between two ticks, in nanoseconds, that still counts as
/// running on schedule.
pub const STALL_THRESHOLD_NANOS: u128 = 5_000_000_000;

/// Seconds to wait before each stop or start request of a restart.
pub const RESTART_POLL_SECS: u64 = 5;

/// Whether a gap of `elapsed_nanos` between two ticks shows a stall.
pub fn stall_detected(elapsed_nanos: u128) -> (stalled: bool)
    ensures
        stalled == (elapsed_nanos > STALL_THRESHOLD_NANOS),
{
    elapsed_nanos > STALL_THRESHOLD_NANOS
}

/// How far a forced restart has come.
#[derive(Clone, Copy, Debug, PartialEq, Eq, Structural)]
pub enum RestartPhase {
    /// Asking the buffer to stop until it reports inactive.
    Stopping,
    /// Asking the buffer to start until it reports active.
    Starting,
    /// The buffer reported active after the restart.
    Done,
}

/// What the caller does after an observation of the buffer.
#[derive(Clone, Copy, Debug, PartialEq, Eq, Structural)]
pub enum RestartAction {
    /// Wait, request a stop, then observe again.
    RequestStop,
    /// Wait, request a start, then observe again.
    RequestStart,
    /// Observe again at once.
    Observe,
    /// The restart is over.
    Finish,
}

impl RestartPhase {
    /// The phase that follows `self` on observing the buffer `active` or not.
    pub open spec fn next(self, active: bool) -> RestartPhase {
        match self {
            RestartPhase::Stopping => if active {
                RestartPhase::Stopping
            } else {
                RestartPhase::Starting
            },
            RestartPhase::Starting => if active {
                RestartPhase::Done
            } else {
                RestartPhase::Starting
            },
            RestartPhase::Done => RestartPhase::Done,
        }
    }

    /// What is done in phase `self` on observing the buffer `active` or not.
    pub open spec fn action(self, active: bool) -> RestartAction {
        match self {
            RestartPhase::Stopping => if active {
                RestartAction::RequestStop
            } else {
                RestartAction::Observe
            },
            RestartPhase::Starting => if active {
                RestartAction::Finish
            } else {
                RestartAction::RequestStart
            },
            RestartPhase::Done => RestartAction::Finish,
        }
    }

    /// The phase reached from `self` after the observations `seen`, in order.
    pub open spec fn after(self, seen: Seq<bool>) -> RestartPhase
        decreases seen.len(),
    {
        if seen.len() == 0 {
            self
        } else {
            self.after(seen.drop_last()).next(seen.last())
        }
    }

    /// One step of a restart: from the phase and an observation of the
    /// buffer to the next phase and what to do.
    pub fn step(self, active: bool) -> (out: (RestartPhase, RestartAction))
        ensures
            out.0 == self.next(active),
            out.1 == self.action(active),
    {
        match self {
            RestartPhase::Stopping => if active {
                (RestartPhase::Stopping, RestartAction::RequestStop)
            } else {
                (RestartPhase::Starting, RestartAction::Observe)
            },
            RestartPhase::Starting => if active {
                (RestartPhase::Done, RestartAction::Finish)
            } else {
                (RestartPhase::Starting, RestartAction::RequestStart)
            },
            RestartPhase::Done => (RestartPhase::Done, RestartAction::Finish),
        }
    }

    /// The phase reached from `self` once the observations `seen` have come in.
    pub fn advance(self, seen: &Vec<bool>) -> (phase: RestartPhase)
        ensures
            phase == self.after(seen@),
            self == RestartPhase::Stopping ==> (phase == RestartPhase::Done
                <==> inactive_then_active(seen@)),
            self == RestartPhase::Stopping ==> (phase == RestartPhase::Stopping <==> all_active(
                seen@,
            )),
    {
        proof {
            lemma_restart_outcome(seen@);
        }
        let mut phase = self;
        let mut i: usize = 0;
        assert(seen@.subrange(0, 0) =~= Seq::<bool>::empty());
        while i < seen.len()
            invariant
                i <= seen@.len(),
                phase == self.after(seen@.subrange(0, i as int)),
            decreases seen@.len() - i,
        {
            assert(seen@.subrange(0, i + 1).drop_last() =~= seen@.subrange(0, i as int));
            phase = phase.step(seen[i]).0;
            i += 1;
        }
        assert(seen@.subrange(0, i as int) =~= seen@);
        phase
    }
}

/// The phase in which a forced restart begins.
pub fn restart_replay_buffer() -> (phase: RestartPhase)
    ensures
        phase == RestartPhase::Stopping,
{
    RestartPhase::Stopping
}

/// Whether every observation in `seen` reports the buffer active.
pub open spec fn all_active(seen: Seq<bool>) -> bool {
    forall|i: int| 0 <= i < seen.len() ==> #[trigger] seen[i]
}

/// Whether `seen` holds an inactive observation and a later active one.
pub open spec fn inactive_then_active(seen: Seq<bool>) -> bool {
    exists|i: int, j: int| 0 <= i < j < seen.len() && !#[trigger] seen[i] && #[trigger] seen[j]
}

/// A restart is over exactly when the buffer was seen inactive and later
/// seen active, and it is still stopping exactly while the buffer was seen
/// active every time. So a restart never ends before the buffer has stopped,
/// and it ends on an observation that the buffer is running.
pub proof fn lemma_restart_outcome(seen: Seq<bool>)
    ensures
        RestartPhase::Stopping.after(seen) == RestartPhase::Stopping <==> all_active(seen),
        RestartPhase::Stopping.after(seen) == RestartPhase::Done <==> inactive_then_active(seen),
    decreases seen.len(),
{
    if seen.len() > 0 {
        let front = seen.drop_last();
        let last = seen.last();
        let n = front.len() as int;
        lemma_restart_outcome(front);
        let before = RestartPhase::Stopping.after(front);
        let now = RestartPhase::Stopping.after(seen);
        assert(now == before.next(last));
        if all_active(seen) {
            assert forall|i: int| 0 <= i < front.len() implies #[trigger] front[i] by {
                assert(seen[i]);
            }
            assert(seen[n]);
        }
        if now == RestartPhase::Stopping {
            assert forall|i: int| 0 <= i < seen.len() implies #[trigger] seen[i] by {
                if i < n {
                    assert(front[i]);
                }
            }
        }
        if inactive_then_active(seen) {
            let (i, j) = choose|i: int, j: int|
                0 <= i < j < seen.len() && !#[trigger] seen[i] && #[trigger] seen[j];
            if j < n {
                assert(!front[i] && front[j]);
                assert(inactive_then_active(front));
            } else {
                assert(!front[i]);
                assert(!all_active(front));
            }
            assert(now == RestartPhase::Done);
        }
        if now == RestartPhase::Done {
            if before == RestartPhase::Done {
                let (i, j) = choose|i: int, j: int|
                    0 <= i < j < front.len() && !#[trigger] front[i] && #[trigger] front[j];
                assert(!seen[i] && seen[j]);
            } else {
                assert(!all_active(front));
                let i = choose|i: int| 0 <= i < front.len() && !#[trigger] front[i];
                assert(!seen[i] && seen[n]);
            }
            assert(inactive_then_active(seen));
        }
    }
}

/// A restart moves forward only: stop requests come while it is stopping,
/// start requests while it is starting, and it becomes done only from
/// starting, on observing the buffer active.
pub proof fn lemma_restart_step(phase: RestartPhase, active: bool)
    ensures
        phase.action(active) == RestartAction::RequestStop <==> phase == RestartPhase::Stopping
            && active,
        phase.action(active) == RestartAction::RequestStart <==> phase == RestartPhase::Starting
            && !active,
        phase.next(active) == RestartPhase::Stopping ==> phase == RestartPhase::Stopping,
        phase.next(active) == RestartPhase::Done && phase != RestartPhase::Done ==> phase
            == RestartPhase::Starting && active,
        phase == RestartPhase::Done ==> phase.next(active) == RestartPhase::Done,
{
}

/// What a restart that has seen `seen` from its beginning did on the
/// observation at position `at`.
pub open spec fn action_at(seen: Seq<bool>, at: int) -> RestartAction {
    RestartPhase::Stopping.after(seen.subrange(0, at)).action(seen[at])
}

/// The requests of a restart come in order: every stop request precedes
/// every start request, and once the restart is over nothing is requested.
pub proof fn lemma_stops_before_starts(seen: Seq<bool>, earlier: int, later: int)
    requires
        0 <= earlier < later < seen.len(),
    ensures
        action_at(seen, later) == RestartAction::RequestStop ==> action_at(seen, earlier)
            == RestartAction::RequestStop,
        action_at(seen, earlier) == RestartAction::RequestStart ==> action_at(seen, later)
            == RestartAction::RequestStart || action_at(seen, later) == RestartAction::Finish,
        action_at(seen, earlier) == RestartAction::Finish ==> action_at(seen, later)
            == RestartAction::Finish,
{
    let short = seen.subrange(0, earlier);
    let closed = seen.subrange(0, earlier + 1);
    let long = seen.subrange(0, later);
    lemma_restart_outcome(short);
    lemma_restart_outcome(closed);
    lemma_restart_outcome(long);
    assert(closed.drop_last() =~= short);
    assert(closed.last() == seen[earlier]);
    assert(long[earlier] == seen[earlier]);
    if all_active(long) {
        assert forall|i: int| 0 <= i < short.len() implies #[trigger] short[i] by {
            assert(long[i]);
        }
        assert(long[earlier]);
    }
    if inactive_then_active(closed) {
        let (i, j) = choose|i: int, j: int|
            0 <= i < j < closed.len() && !#[trigger] closed[i] && #[trigger] closed[j];
        assert(!long[i] && long[j]);
    }
}

} // verus!
