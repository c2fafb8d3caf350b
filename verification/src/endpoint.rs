//! A target together with what its checks have found so far.

use crate::error::CheckTargetError;
use crate::status::OldStatus;
use crate::status::Status;
use crate::target::Target;
use vstd::prelude::*;

verus! {

/// What one check of a target has come to: a status, or an error where the
/// check itself failed.
pub type CheckOutcome = Result<Status, CheckTargetError>;

/// What one check has found, beside what was known before it.
#[derive(Debug)]
pub struct CheckReport {
    /// The status that the check has found; `Unknown` where it failed.
    pub status: Status,
    /// The status before the check.
    pub old_status: OldStatus,
    /// The error of the check, where it failed.
    pub error: Option<CheckTargetError>,
}

/// The status that a check leaves behind: the status it found, or `Unknown`
/// where it failed.
pub open spec fn outcome_status(outcome: CheckOutcome) -> Status {
    match outcome {
        Ok(status) => status,
        Err(_) => Status::Unknown,
    }
}

/// The error that a check leaves behind, where it failed.
pub open spec fn outcome_error(outcome: CheckOutcome) -> Option<CheckTargetError> {
    match outcome {
        Ok(_) => None,
        Err(error) => Some(error),
    }
}

/// The status after a series of checks: that of the last check, and `Unknown`
/// before the first.
pub open spec fn status_after(outcomes: Seq<CheckOutcome>) -> Status {
    if outcomes.len() == 0 {
        Status::Unknown
    } else {
        outcome_status(outcomes.last())
    }
}

/// The report of the check that follows the checks `before` and comes to
/// `outcome`.
pub open spec fn report_of(before: Seq<CheckOutcome>, outcome: CheckOutcome) -> CheckReport {
    CheckReport {
        status: outcome_status(outcome),
        old_status: status_after(before),
        error: outcome_error(outcome),
    }
}

/// The status that the checks of a target have left behind, with the outcomes
/// of those checks.
struct Findings {
    status: Status,
    history: Ghost<Seq<CheckOutcome>>,
}

impl Findings {
    /// The status is always the one that the checks made so far have left
    /// behind.
    #[verifier::type_invariant]
    spec fn status_follows_history(self) -> bool {
        self.status == status_after(self.history@)
    }

    /// The findings before the first check.
    fn new() -> (r: Findings)
        ensures
            r.status == Status::Unknown,
            r.history@ == Seq::<CheckOutcome>::empty(),
    {
        Findings { status: Status::Unknown, history: Ghost(Seq::empty()) }
    }

    /// The status that the last check has left behind.
    fn status(&self) -> (r: Status)
        ensures
            r == status_after(self.history@),
    {
        proof {
            use_type_invariant(self);
        }
        self.status
    }

    /// The findings after one more check that has left `status` behind.
    fn with(&self, status: Status, Ghost(outcome): Ghost<CheckOutcome>) -> (r: Findings)
        requires
            status == outcome_status(outcome),
        ensures
            r.history@ == self.history@.push(outcome),
    {
        Findings { status, history: Ghost(self.history@.push(outcome)) }
    }
}

/// Whether a check of the target has returned the outcome.
pub open spec fn checked<T: Target>(target: T, outcome: CheckOutcome) -> bool {
    call_ensures(T::check_availability, (&target,), outcome)
}

/// A target and the status that its last check has found.
pub struct Endpoint<T> {
    target: T,
    findings: Findings,
}

impl<T> Endpoint<T> {
    /// The target.
    pub closed spec fn target(self) -> T {
        self.target
    }

    /// The outcomes of the checks made so far, the first one first.
    pub closed spec fn history(self) -> Seq<CheckOutcome> {
        self.findings.history@
    }

    /// The status that the checks made so far have left behind.
    pub open spec fn status(self) -> Status {
        status_after(self.history())
    }

    /// The endpoint of a target that was never checked.
    pub closed spec fn unchecked(target: T) -> Self {
        Endpoint {
            target,
            findings: Findings { status: Status::Unknown, history: Ghost(Seq::empty()) },
        }
    }
}

impl<T: Target> Endpoint<T> {
    /// An endpoint for a target that was never checked: its status is
    /// `Unknown`.
    pub fn new(target: T) -> (r: Endpoint<T>)
        ensures
            r == Self::unchecked(target),
            r.target() == target,
            r.history() == Seq::<CheckOutcome>::empty(),
    {
        Endpoint { target, findings: Findings::new() }
    }

    /// The status that the last check has found; `Unknown` before the first
    /// check.
    pub fn get_status(&self) -> (r: Status)
        ensures
            r == self.status(),
    {
        self.findings.status()
    }

    /// The target.
    pub fn get_target(&self) -> (r: &T)
        ensures
            *r == self.target(),
    {
        &self.target
    }

    /// Takes note of the outcome of a check of the target.
    ///
    /// The status becomes the one that the check has found, and `Unknown`
    /// where the check failed. The report holds the new status, the status
    /// before the check, and the error of a failed check.
    pub fn record(&mut self, outcome: CheckOutcome) -> (r: CheckReport)
        ensures
            r == report_of(old(self).history(), outcome),
            final(self).history() == old(self).history().push(outcome),
            final(self).target() == old(self).target(),
    {
        let old_status = self.findings.status();
        let ghost noted = outcome;
        let (status, error) = match outcome {
            Ok(status) => (status, None),
            Err(error) => (Status::Unknown, Some(error)),
        };
        self.findings = self.findings.with(status, Ghost(noted));
        CheckReport { status, old_status, error }
    }

    /// Checks the target and takes note of the outcome. Returns the status
    /// that the check leaves behind.
    ///
    /// The target is checked once, and what its check returns is the outcome
    /// that is added to the history.
    pub fn update_status(&mut self) -> (r: Status)
        ensures
            final(self).history().len() == old(self).history().len() + 1,
            final(self).history().drop_last() == old(self).history(),
            checked(old(self).target(), final(self).history().last()),
            final(self).target() == old(self).target(),
            r == final(self).status(),
    {
        let outcome = self.target.check_availability();
        let report = self.record(outcome);
        report.status
    }
}

} // verus!
