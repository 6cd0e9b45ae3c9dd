//! The supervisor of all zones: who has reported, whether shutdown was
//! signalled, and what the run as a whole comes to.

use vstd::prelude::*;
use crate::reconcile::{CycleOutcome, FailureCause};
use crate::scheduler::Mode;

verus! {

/// The cause of the first failure among the reports, in the order of the
/// zones; `None` where no zone has reported a failure.
pub open spec fn first_failure(reports: Seq<Option<CycleOutcome>>) -> Option<FailureCause>
    decreases reports.len(),
{
    if reports.len() == 0 {
        None
    } else {
        match first_failure(reports.drop_last()) {
            Some(cause) => Some(cause),
            None => match reports.last() {
                Some(CycleOutcome::Failure(cause)) => Some(cause),
                _ => None,
            },
        }
    }
}

/// Every zone has reported.
pub open spec fn all_reported(reports: Seq<Option<CycleOutcome>>) -> bool {
    forall|i: int| 0 <= i < reports.len() ==> (#[trigger] reports[i]) is Some
}

/// What a run comes to once every zone has reported: in one-shot mode a
/// failure if any zone failed, in daemon mode always success.
pub open spec fn verdict(mode: Mode, reports: Seq<Option<CycleOutcome>>) -> CycleOutcome {
    match mode {
        Mode::Daemon => CycleOutcome::Success,
        Mode::OneShot => match first_failure(reports) {
            Some(cause) => CycleOutcome::Failure(cause),
            None => CycleOutcome::Success,
        },
    }
}

/// The process exit code for the outcome of a run.
pub open spec fn exit_code_of(outcome: CycleOutcome) -> u8 {
    match outcome {
        CycleOutcome::Success => 0,
        CycleOutcome::Failure(_) => 1,
    }
}

pub fn exit_code(outcome: CycleOutcome) -> (r: u8)
    ensures
        r == exit_code_of(outcome),
{
    match outcome {
        CycleOutcome::Success => 0,
        CycleOutcome::Failure(_) => 1,
    }
}

/// The supervisor's record of a run.
#[derive(Debug)]
pub struct Supervisor {
    pub mode: Mode,
    /// One entry for each zone: what its scheduler reported, once it has.
    pub reports: Vec<Option<CycleOutcome>>,
    /// The shutdown signal has been broadcast.
    pub cancelled: bool,
}

impl Supervisor {
    /// A supervisor of `zones` zones, none of which has reported.
    pub fn new(mode: Mode, zones: usize) -> (r: Supervisor)
        ensures
            r.mode == mode,
            !r.cancelled,
            r.reports@ == Seq::new(zones as nat, |i: int| None::<CycleOutcome>),
    {
        let mut reports: Vec<Option<CycleOutcome>> = Vec::new();
        let mut i: usize = 0;
        while i < zones
            invariant
                i <= zones,
                reports@ == Seq::new(i as nat, |k: int| None::<CycleOutcome>),
            decreases zones - i,
        {
            reports.push(None);
            i += 1;
            assert(reports@ =~= Seq::new(i as nat, |k: int| None::<CycleOutcome>));
        }
        Supervisor { mode, reports, cancelled: false }
    }

    /// Records the report of one zone's scheduler. Only the first report of a
    /// zone counts; the result says whether this one did. No other zone's
    /// entry is touched.
    pub fn record(&mut self, zone: usize, outcome: CycleOutcome) -> (accepted: bool)
        ensures
            accepted == (zone < old(self).reports@.len() && old(self).reports@[zone as int] is None),
            accepted ==> final(self).reports@ == old(self).reports@.update(
                zone as int,
                Some(outcome),
            ),
            !accepted ==> final(self).reports@ == old(self).reports@,
            final(self).mode == old(self).mode,
            final(self).cancelled == old(self).cancelled,
    {
        if zone < self.reports.len() {
            let fresh: bool = match self.reports[zone] {
                None => true,
                Some(_) => false,
            };
            if fresh {
                self.reports.set(zone, Some(outcome));
            }
            fresh
        } else {
            false
        }
    }

    /// Signals shutdown. The result says whether this call is the one that
    /// triggers the broadcast: a signal that is repeated has no further effect.
    pub fn cancel(&mut self) -> (first: bool)
        ensures
            first == !old(self).cancelled,
            final(self).cancelled,
            final(self).mode == old(self).mode,
            final(self).reports == old(self).reports,
    {
        let first: bool = !self.cancelled;
        self.cancelled = true;
        first
    }

    /// Whether every zone's scheduler has reported.
    pub fn is_complete(&self) -> (r: bool)
        ensures
            r == all_reported(self.reports@),
    {
        let mut i: usize = 0;
        while i < self.reports.len()
            invariant
                i <= self.reports@.len(),
                forall|k: int| 0 <= k < i ==> (#[trigger] self.reports@[k]) is Some,
            decreases self.reports@.len() - i,
        {
            match self.reports[i] {
                None => {
                    return false;
                },
                Some(_) => {},
            }
            i += 1;
        }
        true
    }

    /// The outcome of the run, once every zone has reported; `None` before.
    pub fn overall(&self) -> (r: Option<CycleOutcome>)
        ensures
            r == if all_reported(self.reports@) {
                Some(verdict(self.mode, self.reports@))
            } else {
                None
            },
    {
        if !self.is_complete() {
            return None;
        }
        match self.mode {
            Mode::Daemon => Some(CycleOutcome::Success),
            Mode::OneShot => {
                let mut i: usize = 0;
                while i < self.reports.len()
                    invariant
                        i <= self.reports@.len(),
                        self.mode == Mode::OneShot,
                        all_reported(self.reports@),
                        first_failure(self.reports@.take(i as int)) is None,
                    decreases self.reports@.len() - i,
                {
                    let ghost upto = self.reports@.take(i + 1);
                    assert(upto.drop_last() =~= self.reports@.take(i as int));
                    match self.reports[i] {
                        Some(CycleOutcome::Failure(cause)) => {
                            proof {
                                assert(upto.last() == self.reports@[i as int]);
                                assert(first_failure(upto) == Some(cause));
                                failure_is_kept(self.reports@, i + 1);
                            }
                            return Some(CycleOutcome::Failure(cause));
                        },
                        _ => {
                            assert(upto.last() == self.reports@[i as int]);
                            assert(first_failure(upto) is None);
                        },
                    }
                    i += 1;
                }
                assert(self.reports@.take(i as int) =~= self.reports@);
                Some(CycleOutcome::Success)
            },
        }
    }
}

/// A failure found among the first `n` reports is the first failure of all.
pub proof fn failure_is_kept(reports: Seq<Option<CycleOutcome>>, n: int)
    requires
        0 <= n <= reports.len(),
        first_failure(reports.take(n)) is Some,
    ensures
        first_failure(reports) == first_failure(reports.take(n)),
    decreases reports.len() - n,
{
    if n == reports.len() {
        assert(reports.take(n) =~= reports);
    } else {
        assert(reports.take(n + 1).drop_last() =~= reports.take(n));
        failure_is_kept(reports, n + 1);
    }
}

/// A one-shot run fails if and only if some zone reported a failure.
pub proof fn run_fails_iff_a_zone_fails(reports: Seq<Option<CycleOutcome>>)
    ensures
        verdict(Mode::OneShot, reports) is Failure <==> exists|i: int|
            0 <= i < reports.len() && (#[trigger] reports[i]) is Some && reports[i]->Some_0 is Failure,
    decreases reports.len(),
{
    if reports.len() > 0 {
        let front = reports.drop_last();
        run_fails_iff_a_zone_fails(front);
        if verdict(Mode::OneShot, front) is Failure {
            let i = choose|i: int|
                0 <= i < front.len() && (#[trigger] front[i]) is Some && front[i]->Some_0 is Failure;
            assert(reports[i] == front[i]);
        } else if reports.last() is Some && reports.last()->Some_0 is Failure {
            assert(reports[reports.len() - 1] == reports.last());
        } else {
            assert forall|i: int|
                0 <= i < reports.len() && (#[trigger] reports[i]) is Some implies !(
            reports[i]->Some_0 is Failure) by {
                if i < front.len() {
                    assert(front[i] == reports[i]);
                }
            }
        }
    }
}

/// A daemon run never fails: the outcomes of its cycles are not aggregated.
pub proof fn daemon_run_succeeds(reports: Seq<Option<CycleOutcome>>)
    ensures
        verdict(Mode::Daemon, reports) == CycleOutcome::Success,
{
}

/// Zones are isolated: where one zone fails and another succeeds, the run as
/// a whole fails, and the report of the zone that succeeded stands as it was
/// recorded, before and after the report of the one that failed.
pub proof fn failure_is_isolated(
    reports: Seq<Option<CycleOutcome>>,
    failing: int,
    cause: FailureCause,
    other: int,
    outcome: CycleOutcome,
)
    requires
        0 <= failing < reports.len(),
        0 <= other < reports.len(),
        failing != other,
    ensures
        verdict(
            Mode::OneShot,
            reports.update(failing, Some(CycleOutcome::Failure(cause))),
        ) is Failure,
        reports.update(failing, Some(CycleOutcome::Failure(cause)))[other] == reports[other],
        reports.update(other, Some(outcome)).update(
            failing,
            Some(CycleOutcome::Failure(cause)),
        )[other] == Some(outcome),
{
    let after = reports.update(failing, Some(CycleOutcome::Failure(cause)));
    run_fails_iff_a_zone_fails(after);
    assert(after[failing] is Some && after[failing]->Some_0 is Failure);
}

} // verus!
