//! The life of one zone's scheduler: a single cycle, or a cycle at every
//! interval until cancellation.
//!
//! The scheduler decides; its caller waits on the timer and the cancellation
//! signal, runs the cycles, and hands back what happened as events.

use vstd::prelude::*;
use crate::config::{period_of, ZoneConfig};
use crate::reconcile::CycleOutcome;

verus! {

/// Whether a zone is reconciled once or at every interval.
#[derive(Clone, Copy, Debug, PartialEq, Eq, Structural)]
pub enum Mode {
    OneShot,
    Daemon,
}

/// Where a scheduler stands.
#[derive(Clone, Copy, Debug, PartialEq, Eq, Structural)]
pub enum Phase {
    Idle,
    Waiting,
    Running,
    Terminated,
}

/// What happens to a scheduler.
#[derive(Clone, Copy, Debug, PartialEq, Eq, Structural)]
pub enum SchedulerEvent {
    /// The supervisor starts the scheduler.
    Start,
    /// The interval has elapsed.
    IntervalElapsed,
    /// The cancellation signal was seen.
    Cancelled,
    /// The cycle that was running has ended.
    CycleFinished(CycleOutcome),
}

/// What a scheduler asks its caller to do.
#[derive(Clone, Copy, Debug, PartialEq, Eq, Structural)]
pub enum SchedulerAction {
    /// Wait until the interval elapses or cancellation is signalled. `after`
    /// is the outcome of the cycle that has just ended, for the log.
    Wait { after: Option<CycleOutcome>, period_secs: u64 },
    /// Run one cycle, to its end.
    RunCycle,
    /// The scheduler has terminated: report this to the supervisor.
    Report(CycleOutcome),
    /// Nothing.
    Nothing,
}

/// The configuration does not allow the scheduler to start.
#[derive(Clone, Copy, Debug, PartialEq, Eq, Structural)]
pub enum ConfigError {
    /// Daemon mode needs a positive update frequency whose seconds fit in 64 bits.
    BadFrequency,
}

/// One zone's scheduler.
#[derive(Clone, Copy, Debug, PartialEq, Eq, Structural)]
pub struct ZoneScheduler {
    pub mode: Mode,
    pub phase: Phase,
    /// Cancellation was seen while a cycle was running: the scheduler
    /// terminates when that cycle ends.
    pub stopping: bool,
    /// The seconds between two cycles; positive in daemon mode.
    pub period_secs: u64,
}

impl ZoneScheduler {
    /// A daemon has an interval to wait for.
    pub open spec fn wf(self) -> bool {
        self.mode == Mode::Daemon ==> self.period_secs > 0
    }

    /// The scheduler will start no further cycle.
    pub open spec fn halted(self) -> bool {
        self.phase == Phase::Terminated || (self.phase == Phase::Running && self.stopping)
    }

    /// The state with another phase.
    pub open spec fn at(self, phase: Phase) -> ZoneScheduler {
        ZoneScheduler { phase, ..self }
    }

    /// The transition relation: the state after `event`, and the action asked
    /// for. A one-shot scheduler runs its single cycle and reports its
    /// outcome. A daemon waits, runs a cycle at every interval whatever the
    /// last outcome was, and terminates on cancellation: at once while it is
    /// idle or waiting, after the cycle in flight while it is running.
    pub open spec fn react(self, event: SchedulerEvent) -> (ZoneScheduler, SchedulerAction) {
        match (self.mode, self.phase, event) {
            (Mode::OneShot, Phase::Idle, SchedulerEvent::Start) => (
                self.at(Phase::Running),
                SchedulerAction::RunCycle,
            ),
            (Mode::OneShot, Phase::Running, SchedulerEvent::CycleFinished(outcome)) => (
                self.at(Phase::Terminated),
                SchedulerAction::Report(outcome),
            ),
            (Mode::Daemon, Phase::Idle, SchedulerEvent::Start) => (
                self.at(Phase::Waiting),
                SchedulerAction::Wait { after: None, period_secs: self.period_secs },
            ),
            (Mode::Daemon, Phase::Idle, SchedulerEvent::Cancelled) => (
                self.at(Phase::Terminated),
                SchedulerAction::Report(CycleOutcome::Success),
            ),
            (Mode::Daemon, Phase::Waiting, SchedulerEvent::IntervalElapsed) => (
                self.at(Phase::Running),
                SchedulerAction::RunCycle,
            ),
            (Mode::Daemon, Phase::Waiting, SchedulerEvent::Cancelled) => (
                self.at(Phase::Terminated),
                SchedulerAction::Report(CycleOutcome::Success),
            ),
            (Mode::Daemon, Phase::Running, SchedulerEvent::Cancelled) => (
                ZoneScheduler { stopping: true, ..self },
                SchedulerAction::Nothing,
            ),
            (Mode::Daemon, Phase::Running, SchedulerEvent::CycleFinished(outcome)) => if self.stopping {
                (self.at(Phase::Terminated), SchedulerAction::Report(CycleOutcome::Success))
            } else {
                (
                    self.at(Phase::Waiting),
                    SchedulerAction::Wait { after: Some(outcome), period_secs: self.period_secs },
                )
            },
            _ => (self, SchedulerAction::Nothing),
        }
    }

    /// A scheduler for one zone, idle. Daemon mode is refused where the
    /// configured frequency gives no interval to wait for.
    pub fn new(mode: Mode, config: &ZoneConfig) -> (r: Result<ZoneScheduler, ConfigError>)
        ensures
            r is Err <==> mode == Mode::Daemon && period_of(config.update_frequency_minutes) is None,
            r is Err ==> r == Err::<ZoneScheduler, ConfigError>(ConfigError::BadFrequency),
            r is Ok ==> r->Ok_0.wf() && r->Ok_0 == (ZoneScheduler {
                mode,
                phase: Phase::Idle,
                stopping: false,
                period_secs: match period_of(config.update_frequency_minutes) {
                    Some(p) => p,
                    None => 0,
                },
            }),
    {
        match config.period_secs() {
            Some(period_secs) => Ok(
                ZoneScheduler { mode, phase: Phase::Idle, stopping: false, period_secs },
            ),
            None => match mode {
                Mode::Daemon => Err(ConfigError::BadFrequency),
                Mode::OneShot => Ok(
                    ZoneScheduler { mode, phase: Phase::Idle, stopping: false, period_secs: 0 },
                ),
            },
        }
    }

    /// Takes one step: updates the state and returns the action asked for.
    pub fn handle(&mut self, event: SchedulerEvent) -> (action: SchedulerAction)
        ensures
            (*final(self), action) == old(self).react(event),
            old(self).wf() ==> final(self).wf(),
    {
        match (self.mode, self.phase, event) {
            (Mode::OneShot, Phase::Idle, SchedulerEvent::Start) => {
                self.phase = Phase::Running;
                SchedulerAction::RunCycle
            },
            (Mode::OneShot, Phase::Running, SchedulerEvent::CycleFinished(outcome)) => {
                self.phase = Phase::Terminated;
                SchedulerAction::Report(outcome)
            },
            (Mode::Daemon, Phase::Idle, SchedulerEvent::Start) => {
                self.phase = Phase::Waiting;
                SchedulerAction::Wait { after: None, period_secs: self.period_secs }
            },
            (Mode::Daemon, Phase::Idle, SchedulerEvent::Cancelled) => {
                self.phase = Phase::Terminated;
                SchedulerAction::Report(CycleOutcome::Success)
            },
            (Mode::Daemon, Phase::Waiting, SchedulerEvent::IntervalElapsed) => {
                self.phase = Phase::Running;
                SchedulerAction::RunCycle
            },
            (Mode::Daemon, Phase::Waiting, SchedulerEvent::Cancelled) => {
                self.phase = Phase::Terminated;
                SchedulerAction::Report(CycleOutcome::Success)
            },
            (Mode::Daemon, Phase::Running, SchedulerEvent::Cancelled) => {
                self.stopping = true;
                SchedulerAction::Nothing
            },
            (Mode::Daemon, Phase::Running, SchedulerEvent::CycleFinished(outcome)) => {
                if self.stopping {
                    self.phase = Phase::Terminated;
                    SchedulerAction::Report(CycleOutcome::Success)
                } else {
                    self.phase = Phase::Waiting;
                    SchedulerAction::Wait { after: Some(outcome), period_secs: self.period_secs }
                }
            },
            _ => SchedulerAction::Nothing,
        }
    }

    pub fn is_terminated(&self) -> (r: bool)
        ensures
            r == (self.phase == Phase::Terminated),
    {
        match self.phase {
            Phase::Terminated => true,
            _ => false,
        }
    }

    /// The state after a sequence of events.
    pub open spec fn after(self, events: Seq<SchedulerEvent>) -> ZoneScheduler
        decreases events.len(),
    {
        if events.len() == 0 {
            self
        } else {
            self.after(events.drop_last()).react(events.last()).0
        }
    }

    /// The action that the `i`-th event of a sequence is answered with.
    pub open spec fn action_at(self, events: Seq<SchedulerEvent>, i: int) -> SchedulerAction {
        self.after(events.take(i)).react(events[i]).1
    }
}

/// Cancellation while waiting terminates a daemon at once: the scheduler
/// reports, and starts no cycle.
pub proof fn cancelled_while_waiting(s: ZoneScheduler)
    requires
        s.mode == Mode::Daemon,
        s.phase == Phase::Waiting,
    ensures
        s.react(SchedulerEvent::Cancelled) == (
            s.at(Phase::Terminated),
            SchedulerAction::Report(CycleOutcome::Success),
        ),
{
}

/// Cancellation while a cycle runs does not interrupt it: the daemon stays in
/// `Running`, and terminates when the cycle ends, whatever its outcome.
pub proof fn cancelled_while_running(s: ZoneScheduler, outcome: CycleOutcome)
    requires
        s.mode == Mode::Daemon,
        s.phase == Phase::Running,
    ensures
        s.react(SchedulerEvent::Cancelled).0.phase == Phase::Running,
        s.react(SchedulerEvent::Cancelled).1 == SchedulerAction::Nothing,
        s.react(SchedulerEvent::Cancelled).0.react(SchedulerEvent::CycleFinished(outcome)) == (
            (ZoneScheduler { stopping: true, ..s }).at(Phase::Terminated),
            SchedulerAction::Report(CycleOutcome::Success),
        ),
{
}

/// In daemon mode the outcome of a cycle changes nothing: after success and
/// after failure alike the scheduler waits for the next interval.
pub proof fn daemon_goes_on_after_any_outcome(s: ZoneScheduler, outcome: CycleOutcome)
    requires
        s.mode == Mode::Daemon,
        s.phase == Phase::Running,
        !s.stopping,
    ensures
        s.react(SchedulerEvent::CycleFinished(outcome)).0 == s.at(Phase::Waiting),
        s.react(SchedulerEvent::CycleFinished(outcome)).1 is Wait,
{
}

/// `Terminated` is absorbing: no event changes the state or asks for anything.
pub proof fn terminated_is_absorbing(s: ZoneScheduler, event: SchedulerEvent)
    requires
        s.phase == Phase::Terminated,
    ensures
        s.react(event) == (s, SchedulerAction::Nothing),
{
}

/// A scheduler reports exactly when it terminates: the step that enters
/// `Terminated` asks for the report, and no other step does.
pub proof fn report_marks_termination(s: ZoneScheduler, event: SchedulerEvent)
    ensures
        s.react(event).1 is Report <==> s.phase != Phase::Terminated && s.react(event).0.phase
            == Phase::Terminated,
{
}

/// The state after the first `i + 1` events is one step from the state after
/// the first `i`.
pub proof fn after_unfolds(s: ZoneScheduler, events: Seq<SchedulerEvent>, i: int)
    requires
        0 <= i < events.len(),
    ensures
        s.after(events.take(i + 1)) == s.after(events.take(i)).react(events[i]).0,
{
    assert(events.take(i + 1).drop_last() =~= events.take(i));
    assert(events.take(i + 1).last() == events[i]);
}

/// A scheduler that has halted stays halted.
pub proof fn halted_stays(s: ZoneScheduler, events: Seq<SchedulerEvent>)
    requires
        s.halted(),
    ensures
        s.after(events).halted(),
    decreases events.len(),
{
    if events.len() > 0 {
        halted_stays(s, events.drop_last());
    }
}

/// A terminated scheduler stays terminated.
pub proof fn terminated_stays(s: ZoneScheduler, events: Seq<SchedulerEvent>)
    requires
        s.phase == Phase::Terminated,
    ensures
        s.after(events) == s,
    decreases events.len(),
{
    if events.len() > 0 {
        terminated_stays(s, events.drop_last());
    }
}

/// The state after the first `j` events, reached from the state after the
/// first `i` of them.
pub proof fn after_splits(s: ZoneScheduler, events: Seq<SchedulerEvent>, i: int, j: int)
    requires
        0 <= i <= j <= events.len(),
    ensures
        s.after(events.take(j)) == s.after(events.take(i)).after(events.subrange(i, j)),
    decreases j - i,
{
    if i == j {
        assert(events.subrange(i, j) =~= Seq::<SchedulerEvent>::empty());
    } else {
        after_splits(s, events, i, j - 1);
        after_unfolds(s, events, j - 1);
        assert(events.subrange(i, j).drop_last() =~= events.subrange(i, j - 1));
        assert(events.subrange(i, j).last() == events[j - 1]);
    }
}

/// Cancellation prevents every later cycle: once a daemon has seen the
/// signal, whatever its phase, no later event makes it run a cycle.
pub proof fn no_cycle_after_cancellation(
    s: ZoneScheduler,
    events: Seq<SchedulerEvent>,
    k: int,
    j: int,
)
    requires
        s.mode == Mode::Daemon,
        0 <= k < j < events.len(),
        events[k] == SchedulerEvent::Cancelled,
    ensures
        s.action_at(events, j) != SchedulerAction::RunCycle,
{
    let before = s.after(events.take(k));
    mode_is_kept(s, events.take(k));
    after_unfolds(s, events, k);
    let stopped = s.after(events.take(k + 1));
    assert(stopped.halted());
    after_splits(s, events, k + 1, j);
    halted_stays(stopped, events.subrange(k + 1, j));
}

/// No event changes a scheduler's mode or its interval.
pub proof fn mode_is_kept(s: ZoneScheduler, events: Seq<SchedulerEvent>)
    ensures
        s.after(events).mode == s.mode,
        s.after(events).period_secs == s.period_secs,
    decreases events.len(),
{
    if events.len() > 0 {
        mode_is_kept(s, events.drop_last());
    }
}

/// A scheduler reports to its supervisor at most once: the report is the step
/// into `Terminated`, and nothing follows it.
pub proof fn reports_at_most_once(s: ZoneScheduler, events: Seq<SchedulerEvent>, i: int, j: int)
    requires
        0 <= i <= j < events.len(),
        s.action_at(events, i) is Report,
        s.action_at(events, j) is Report,
    ensures
        i == j,
        s.after(events.take(i + 1)).phase == Phase::Terminated,
{
    after_unfolds(s, events, i);
    if i < j {
        let done = s.after(events.take(i + 1));
        after_splits(s, events, i + 1, j);
        terminated_stays(done, events.subrange(i + 1, j));
    }
}

/// A cycle is started only from a phase in which none is running, and a
/// running scheduler leaves `Running` only when its cycle ends.
pub proof fn cycle_starts_and_ends(s: ZoneScheduler, event: SchedulerEvent)
    ensures
        s.react(event).1 == SchedulerAction::RunCycle ==> s.phase != Phase::Running && s.react(
            event,
        ).0.phase == Phase::Running,
        s.phase == Phase::Running && s.react(event).0.phase != Phase::Running ==> event is CycleFinished,
{
}

/// While no cycle ends, a running scheduler keeps running.
pub proof fn runs_until_cycle_ends(s: ZoneScheduler, events: Seq<SchedulerEvent>)
    requires
        s.phase == Phase::Running,
        forall|k: int| 0 <= k < events.len() ==> !(#[trigger] events[k] is CycleFinished),
    ensures
        s.after(events).phase == Phase::Running,
    decreases events.len(),
{
    if events.len() > 0 {
        let front = events.drop_last();
        assert forall|k: int| 0 <= k < front.len() implies !(#[trigger] front[k] is CycleFinished) by {
            assert(front[k] == events[k]);
        }
        runs_until_cycle_ends(s, front);
        assert(!(events[events.len() - 1] is CycleFinished));
    }
}

/// Cycles of one zone never overlap: between the starts of two cycles the
/// first of them has ended.
pub proof fn cycles_never_overlap(s: ZoneScheduler, events: Seq<SchedulerEvent>, i: int, j: int)
    requires
        0 <= i < j < events.len(),
        s.action_at(events, i) == SchedulerAction::RunCycle,
        s.action_at(events, j) == SchedulerAction::RunCycle,
    ensures
        exists|k: int| i < k < j && (#[trigger] events[k]) is CycleFinished,
{
    if forall|k: int| i < k < j ==> !((#[trigger] events[k]) is CycleFinished) {
        after_unfolds(s, events, i);
        let running = s.after(events.take(i + 1));
        after_splits(s, events, i + 1, j);
        let between = events.subrange(i + 1, j);
        assert forall|k: int| 0 <= k < between.len() implies !(
        #[trigger] between[k] is CycleFinished) by {
            assert(between[k] == events[i + 1 + k]);
        }
        runs_until_cycle_ends(running, between);
        assert(false);
    }
}

} // verus!
