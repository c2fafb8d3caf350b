//! A target that is checked at an interval and reports every check.

use crate::endpoint::checked;
use crate::endpoint::report_of;
use crate::endpoint::status_after;
use crate::endpoint::CheckOutcome;
use crate::endpoint::Endpoint;
use crate::endpoint_async::reported;
use crate::endpoint_async::takes_every_report;
use crate::error::CheckTargetError;
use crate::executor::transition;
use crate::executor::LoopAction;
use crate::executor::LoopEvent;
use crate::executor::ProbeLoop;
use crate::status::OldStatus;
use crate::status::Status;
use crate::target::Target;
use std::time::Duration;
use vstd::prelude::*;
use vstd::std_specs::convert::FromSpecImpl;

verus! {

/// A target with the handler that is called after each of its checks and the
/// interval at which it is checked.
pub struct AsyncTarget<T, H> {
    endpoint: Endpoint<T>,
    check_handler: H,
    check_interval: Duration,
}

impl<T, H> AsyncTarget<T, H> {
    /// The target.
    pub closed spec fn target(self) -> T {
        self.endpoint.target()
    }

    /// The handler that is called after each check.
    pub closed spec fn check_handler(self) -> H {
        self.check_handler
    }

    /// The time from the start of one check to the start of the next.
    pub closed spec fn check_interval(self) -> Duration {
        self.check_interval
    }

    /// The outcomes of the checks made so far, the first one first.
    pub closed spec fn history(self) -> Seq<CheckOutcome> {
        self.endpoint.history()
    }

    /// A target that was never checked, with its handler and its interval.
    pub closed spec fn bound(target: T, check_handler: H, check_interval: Duration) -> Self {
        AsyncTarget { endpoint: Endpoint::unchecked(target), check_handler, check_interval }
    }

    /// Whether `later` is this value after one more check with the given
    /// outcome: the outcome is added to the history, and nothing else has
    /// changed.
    pub open spec fn advanced_by(self, outcome: CheckOutcome, later: Self) -> bool {
        &&& later.history() == self.history().push(outcome)
        &&& later.target() == self.target()
        &&& later.check_handler() == self.check_handler()
        &&& later.check_interval() == self.check_interval()
    }
}

impl<T: Target, H: FnMut(&T, Status, OldStatus, Option<CheckTargetError>)> AsyncTarget<T, H> {
    /// Binds a target to the handler that is called after each of its checks
    /// and to the interval at which it is checked. The target was never
    /// checked: its status is `Unknown`.
    pub fn new(target: T, check_handler: H, check_interval: Duration) -> (r: Self)
        ensures
            r == Self::bound(target, check_handler, check_interval),
            r.target() == target,
            r.check_handler() == check_handler,
            r.check_interval() == check_interval,
            r.history() == Seq::<CheckOutcome>::empty(),
    {
        AsyncTarget { endpoint: Endpoint::new(target), check_handler, check_interval }
    }

    /// The target.
    pub fn get_target(&self) -> (r: &T)
        ensures
            *r == self.target(),
    {
        self.endpoint.get_target()
    }

    /// The status that the last check has found; `Unknown` before the first
    /// check.
    pub fn get_status(&self) -> (r: Status)
        ensures
            r == status_after(self.history()),
    {
        self.endpoint.get_status()
    }

    /// The time from the start of one check to the start of the next.
    pub fn get_check_interval(&self) -> (r: &Duration)
        ensures
            *r == self.check_interval(),
    {
        &self.check_interval
    }

    /// Takes note of the outcome of a check and calls the handler with the
    /// new status, the status before the check, and the error of a failed
    /// check.
    pub fn handle(&mut self, outcome: CheckOutcome)
        requires
            takes_every_report::<T, H>(old(self).check_handler()),
        ensures
            old(self).advanced_by(outcome, *final(self)),
            reported(
                old(self).check_handler(),
                old(self).target(),
                report_of(old(self).history(), outcome),
            ),
    {
        let report = self.endpoint.record(outcome);
        (self.check_handler)(
            self.endpoint.get_target(),
            report.status,
            report.old_status,
            report.error,
        );
    }

    /// Tells the loop of the target that a check has returned, and handles
    /// the outcome if the loop still waits for it.
    ///
    /// A loop that has a check under way takes note of the outcome, calls the
    /// handler, and goes on to pause. A loop that was stopped in the meantime
    /// drops the outcome: the status stays as it is and the handler is not
    /// called.
    pub fn check_returned(
        &mut self,
        control: &mut ProbeLoop,
        outcome: CheckOutcome,
    ) -> (r: LoopAction)
        requires
            takes_every_report::<T, H>(old(self).check_handler()),
        ensures
            (final(control).phase, r) == transition(old(control).phase, LoopEvent::CheckReturned),
            r == LoopAction::Deliver ==> old(self).advanced_by(outcome, *final(self)) && reported(
                old(self).check_handler(),
                old(self).target(),
                report_of(old(self).history(), outcome),
            ),
            r != LoopAction::Deliver ==> *final(self) == *old(self),
    {
        let action = control.step(LoopEvent::CheckReturned);
        if action == LoopAction::Deliver {
            self.handle(outcome);
        }
        action
    }
}

impl<T: Target, H: FnMut(&T, Status, OldStatus, Option<CheckTargetError>)> From<
    (T, H, Duration),
> for AsyncTarget<T, H> {
    fn from(pieces: (T, H, Duration)) -> (r: Self) {
        let (target, check_handler, check_interval) = pieces;
        AsyncTarget::new(target, check_handler, check_interval)
    }
}

impl<T: Target, H: FnMut(&T, Status, OldStatus, Option<CheckTargetError>)> FromSpecImpl<
    (T, H, Duration),
> for AsyncTarget<T, H> {
    open spec fn obeys_from_spec() -> bool {
        true
    }

    open spec fn from_spec(pieces: (T, H, Duration)) -> Self {
        Self::bound(pieces.0, pieces.1, pieces.2)
    }
}

/// Checks a target once: asks the target whether it is available, takes note
/// of the outcome, and calls the handler with the report of the check.
///
/// The call blocks for as long as the target's check and the handler take.
pub fn check_target<T: Target, H: FnMut(&T, Status, OldStatus, Option<CheckTargetError>)>(
    target: AsyncTarget<T, H>,
) -> (r: AsyncTarget<T, H>)
    requires
        takes_every_report::<T, H>(target.check_handler()),
    ensures
        r.history().len() == target.history().len() + 1,
        target.advanced_by(r.history().last(), r),
        checked(target.target(), r.history().last()),
        reported(
            target.check_handler(),
            target.target(),
            report_of(target.history(), r.history().last()),
        ),
{
    let mut target = target;
    let outcome = target.get_target().check_availability();
    target.handle(outcome);
    target
}

} // verus!
