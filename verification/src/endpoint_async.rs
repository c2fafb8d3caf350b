//! A target that is checked again and again, and the rule that says which of
//! its checks are reported to a callback.

use crate::endpoint::checked;
use crate::endpoint::outcome_status;
use crate::endpoint::report_of;
use crate::endpoint::status_after;
use crate::endpoint::CheckOutcome;
use crate::endpoint::CheckReport;
use crate::endpoint::Endpoint;
use crate::error::CheckTargetError;
use crate::executor::transition;
use crate::executor::LoopAction;
use crate::executor::LoopEvent;
use crate::executor::ProbeLoop;
use crate::status::OldStatus;
use crate::status::Status;
use crate::target::Target;
use std::time::Duration;
use vstd::prelude::*;

verus! {

/// When the callback of a target is executed.
#[derive(Clone, Copy, Debug, PartialEq, Eq, Structural)]
pub enum Exec {
    /// After every check.
    OnUpdate,
    /// After every check that has changed the status.
    OnStatusChange,
}

impl Exec {
    /// Whether a check that has replaced `old_status` by `status` is reported.
    pub open spec fn reports(self, status: Status, old_status: OldStatus) -> bool {
        match self {
            Exec::OnUpdate => true,
            Exec::OnStatusChange => status != old_status,
        }
    }

    /// Whether a check that has replaced `old_status` by `status` is reported.
    pub fn should_execute(&self, status: Status, old_status: OldStatus) -> (r: bool)
        ensures
            r == self.reports(status, old_status),
    {
        match self {
            Exec::OnUpdate => true,
            Exec::OnStatusChange => status != old_status,
        }
    }
}

impl Default for Exec {
    /// Unless told otherwise, every check is reported.
    fn default() -> (r: Exec)
        ensures
            r == Exec::OnUpdate,
    {
        Exec::OnUpdate
    }
}

/// The reports that the callback of a target receives, in their order, while
/// the target is checked with the given outcomes, the first one first.
pub open spec fn notifications(policy: Exec, outcomes: Seq<CheckOutcome>) -> Seq<CheckReport>
    decreases outcomes.len(),
{
    if outcomes.len() == 0 {
        Seq::empty()
    } else {
        let before = outcomes.drop_last();
        let report = report_of(before, outcomes.last());
        if policy.reports(report.status, report.old_status) {
            notifications(policy, before).push(report)
        } else {
            notifications(policy, before)
        }
    }
}

/// Whether a callback may be called with every report of a check of a target.
pub open spec fn takes_every_report<T, H: FnMut(&T, Status, OldStatus, Option<CheckTargetError>)>(
    callback: H,
) -> bool {
    forall|target: &T, status: Status, old_status: OldStatus, error: Option<CheckTargetError>|
        call_requires(callback, (target, status, old_status, error))
}

/// Whether a callback was called with a report of a check of a target, and has
/// returned.
pub open spec fn reported<T, H: FnMut(&T, Status, OldStatus, Option<CheckTargetError>)>(
    callback: H,
    target: T,
    report: CheckReport,
) -> bool {
    call_ensures(callback, (&target, report.status, report.old_status, report.error), ())
}

/// A target that is checked at an interval, with the callback that receives
/// the reports of its checks and the policy that selects them.
pub struct EndpointAsync<T, H> {
    endpoint: Endpoint<T>,
    policy: Exec,
    callback: H,
    interval: Duration,
}

impl<T, H> EndpointAsync<T, H> {
    /// The target and what its checks have found so far.
    pub closed spec fn endpoint(self) -> Endpoint<T> {
        self.endpoint
    }

    /// The policy that selects the checks that are reported.
    pub closed spec fn policy(self) -> Exec {
        self.policy
    }

    /// The callback that receives the reports.
    pub closed spec fn callback(self) -> H {
        self.callback
    }

    /// The time from the start of one check to the start of the next.
    pub closed spec fn interval(self) -> Duration {
        self.interval
    }

    /// The outcomes of the checks made so far, the first one first.
    pub open spec fn history(self) -> Seq<CheckOutcome> {
        self.endpoint().history()
    }

    /// A target that was never checked, bound to a policy, a callback and an
    /// interval.
    pub closed spec fn bound(target: T, policy: Exec, callback: H, interval: Duration) -> Self {
        EndpointAsync { endpoint: Endpoint::unchecked(target), policy, callback, interval }
    }

    /// Whether `later` is this value after one more check with the given
    /// outcome: the outcome is added to the history, and nothing else has
    /// changed.
    pub open spec fn advanced_by(self, outcome: CheckOutcome, later: Self) -> bool {
        &&& later.history() == self.history().push(outcome)
        &&& later.endpoint().target() == self.endpoint().target()
        &&& later.policy() == self.policy()
        &&& later.callback() == self.callback()
        &&& later.interval() == self.interval()
    }
}

impl<T: Target, H: FnMut(&T, Status, OldStatus, Option<CheckTargetError>)> EndpointAsync<T, H> {
    /// Binds a target to the policy and the callback of its reports and to the
    /// interval of its checks. The target was never checked: its status is
    /// `Unknown`.
    pub fn new(target: T, policy: Exec, callback: H, interval: Duration) -> (r: Self)
        ensures
            r == Self::bound(target, policy, callback, interval),
            r.endpoint().target() == target,
            r.history() == Seq::<CheckOutcome>::empty(),
            r.policy() == policy,
            r.callback() == callback,
            r.interval() == interval,
    {
        EndpointAsync { endpoint: Endpoint::new(target), policy, callback, interval }
    }

    /// The target.
    pub fn get_target(&self) -> (r: &T)
        ensures
            *r == self.endpoint().target(),
    {
        self.endpoint.get_target()
    }

    /// The status that the last check has found; `Unknown` before the first
    /// check.
    pub fn get_status(&self) -> (r: Status)
        ensures
            r == status_after(self.history()),
    {
        self.endpoint.get_status()
    }

    /// The policy that selects the checks that are reported.
    pub fn get_policy(&self) -> (r: Exec)
        ensures
            r == self.policy(),
    {
        self.policy
    }

    /// The time from the start of one check to the start of the next.
    pub fn get_interval(&self) -> (r: &Duration)
        ensures
            *r == self.interval(),
    {
        &self.interval
    }

    /// Takes note of the outcome of a check and decides whether it is
    /// reported.
    ///
    /// The status becomes the one that the check has found, and `Unknown`
    /// where the check failed. The report of the check is returned if the
    /// policy selects it: always under `OnUpdate`, and under `OnStatusChange`
    /// if the status has changed. A report that is not selected is dropped,
    /// with the error that it holds.
    pub fn evaluate(&mut self, outcome: CheckOutcome) -> (r: Option<CheckReport>)
        ensures
            old(self).advanced_by(outcome, *final(self)),
            r is Some == old(self).policy().reports(
                outcome_status(outcome),
                status_after(old(self).history()),
            ),
            r matches Some(report) ==> report == report_of(old(self).history(), outcome),
            notifications(final(self).policy(), final(self).history()) == match r {
                Some(report) => notifications(old(self).policy(), old(self).history()).push(report),
                None => notifications(old(self).policy(), old(self).history()),
            },
    {
        let report = self.endpoint.record(outcome);
        proof {
            assert(self.history().drop_last() == old(self).history());
        }
        if self.policy.should_execute(report.status, report.old_status) {
            Some(report)
        } else {
            None
        }
    }

    /// Takes note of the outcome of a check and calls the callback with its
    /// report, if the policy selects it. Says whether the callback was called.
    ///
    /// The callback is called once at most, after the new status was set, with
    /// the target, the new status, the status before the check, and the error
    /// of a failed check.
    pub fn deliver(&mut self, outcome: CheckOutcome) -> (r: bool)
        requires
            takes_every_report::<T, H>(old(self).callback()),
        ensures
            old(self).advanced_by(outcome, *final(self)),
            r == old(self).policy().reports(
                outcome_status(outcome),
                status_after(old(self).history()),
            ),
            r ==> reported(
                old(self).callback(),
                old(self).endpoint().target(),
                report_of(old(self).history(), outcome),
            ),
    {
        match self.evaluate(outcome) {
            Some(report) => {
                (self.callback)(
                    self.endpoint.get_target(),
                    report.status,
                    report.old_status,
                    report.error,
                );
                true
            },
            None => false,
        }
    }

    /// Tells the loop of the target that a check has returned, and delivers
    /// the outcome if the loop still waits for it.
    ///
    /// A loop that has a check under way takes note of the outcome, calls the
    /// callback if the policy selects the report, and goes on to pause. A
    /// loop that was stopped in the meantime drops the outcome: the status
    /// stays as it is and the callback is not called.
    pub fn check_returned(
        &mut self,
        control: &mut ProbeLoop,
        outcome: CheckOutcome,
    ) -> (r: LoopAction)
        requires
            takes_every_report::<T, H>(old(self).callback()),
        ensures
            (final(control).phase, r) == transition(old(control).phase, LoopEvent::CheckReturned),
            r == LoopAction::Deliver ==> old(self).advanced_by(outcome, *final(self)),
            r == LoopAction::Deliver && old(self).policy().reports(
                outcome_status(outcome),
                status_after(old(self).history()),
            ) ==> reported(
                old(self).callback(),
                old(self).endpoint().target(),
                report_of(old(self).history(), outcome),
            ),
            r != LoopAction::Deliver ==> *final(self) == *old(self),
    {
        let action = control.step(LoopEvent::CheckReturned);
        if action == LoopAction::Deliver {
            self.deliver(outcome);
        }
        action
    }

    /// Checks the target, takes note of the outcome and calls the callback
    /// with the report of the check, if the policy selects it. Says whether
    /// the callback was called.
    pub fn update_status(&mut self) -> (r: bool)
        requires
            takes_every_report::<T, H>(old(self).callback()),
        ensures
            final(self).history().len() == old(self).history().len() + 1,
            old(self).advanced_by(final(self).history().last(), *final(self)),
            checked(old(self).endpoint().target(), final(self).history().last()),
            r == old(self).policy().reports(
                status_after(final(self).history()),
                status_after(old(self).history()),
            ),
            r ==> reported(
                old(self).callback(),
                old(self).endpoint().target(),
                report_of(old(self).history(), final(self).history().last()),
            ),
    {
        let outcome = self.endpoint.get_target().check_availability();
        self.deliver(outcome)
    }
}

/// Whether each report of a series starts where the one before it ended: the
/// old status of the first report is `Unknown`, and the old status of every
/// later report is the new status of the report before it.
pub open spec fn chained(reports: Seq<CheckReport>) -> bool {
    &&& reports.len() > 0 ==> reports[0].old_status == Status::Unknown
    &&& forall|i: int, j: int|
        0 <= i && j == i + 1 && j < reports.len() ==> (#[trigger] reports[j]).old_status == (
        #[trigger] reports[i]).status
}

/// Each report that a callback receives starts where the one before it ended.
///
/// While a target is checked under any policy, the old status of the first
/// report that its callback receives is `Unknown`, and the old status of every
/// later report is the new status of the report before it. The status that
/// the checks leave behind is the new status of the last report, and `Unknown`
/// as long as there is no report.
pub proof fn reports_are_chained(policy: Exec, outcomes: Seq<CheckOutcome>)
    ensures
        chained(notifications(policy, outcomes)),
        status_after(outcomes) == if notifications(policy, outcomes).len() == 0 {
            Status::Unknown
        } else {
            notifications(policy, outcomes).last().status
        },
    decreases outcomes.len(),
{
    if outcomes.len() > 0 {
        reports_are_chained(policy, outcomes.drop_last());
    }
}

/// Under `OnUpdate` the callback receives one report for every check: the
/// report of that check.
pub proof fn every_check_is_reported_on_update(outcomes: Seq<CheckOutcome>)
    ensures
        notifications(Exec::OnUpdate, outcomes).len() == outcomes.len(),
        forall|k: int|
            0 <= k < outcomes.len() ==> #[trigger] notifications(Exec::OnUpdate, outcomes)[k]
                == report_of(outcomes.take(k), outcomes[k]),
    decreases outcomes.len(),
{
    if outcomes.len() > 0 {
        let before = outcomes.drop_last();
        every_check_is_reported_on_update(before);
        assert forall|k: int| 0 <= k < outcomes.len() implies #[trigger] notifications(
            Exec::OnUpdate,
            outcomes,
        )[k] == report_of(outcomes.take(k), outcomes[k]) by {
            if k < before.len() {
                assert(before.take(k) == outcomes.take(k));
            } else {
                assert(outcomes.take(k) == before);
            }
        }
    }
}

/// Under `OnStatusChange` a target whose checks all find the same status is
/// reported once, with that status and the old status `Unknown`, however often
/// it is checked; and not at all where that status is `Unknown`.
pub proof fn steady_status_is_reported_once(outcomes: Seq<CheckOutcome>, status: Status)
    requires
        outcomes.len() >= 1,
        forall|k: int| 0 <= k < outcomes.len() ==> outcome_status(#[trigger] outcomes[k]) == status,
    ensures
        status != Status::Unknown ==> notifications(Exec::OnStatusChange, outcomes).len() == 1
            && notifications(Exec::OnStatusChange, outcomes)[0].status == status
            && notifications(Exec::OnStatusChange, outcomes)[0].old_status == Status::Unknown,
        status == Status::Unknown ==> notifications(Exec::OnStatusChange, outcomes).len() == 0,
    decreases outcomes.len(),
{
    let before = outcomes.drop_last();
    if before.len() > 0 {
        assert forall|k: int| 0 <= k < before.len() implies outcome_status(#[trigger] before[k])
            == status by {
            assert(before[k] == outcomes[k]);
        }
        steady_status_is_reported_once(before, status);
    } else {
        assert(notifications(Exec::OnStatusChange, before) == Seq::<CheckReport>::empty());
    }
}

} // verus!
