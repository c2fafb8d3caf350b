//! The life cycle of an executor that checks many targets side by side, and
//! the control of the loop that it runs for each of them.
//!
//! An executor is idle or running. Starting it makes the signal of the run
//! and launches one loop per target; all loops of one run watch that signal,
//! which stopping the executor raises. A loop does not wait for a check that
//! is under way when the signal is raised: it lets the check go and ends.

use crate::signal::stop_signal;
use crate::signal::StopSender;
use crate::signal::StopSignal;
use vstd::prelude::*;

verus! {

/// What an executor is to do when it is asked to start.
pub enum StartDecision {
    /// Launch this many loops, one for each target, and let each of them
    /// watch a copy of the signal.
    Launch { loops: usize, signal: StopSignal },
    /// Nothing: the executor is running already, and the targets are dropped.
    AlreadyRunning,
}

/// What an executor is to do when it is asked to stop.
#[derive(Clone, Copy, Debug, PartialEq, Eq, Structural)]
pub enum StopDecision {
    /// The signal of the run was raised: wait until its loops, this many, have
    /// ended. A loop ends without waiting for a check that is under way.
    Shutdown { loops: usize },
    /// Nothing: the executor is idle already.
    AlreadyIdle,
}

/// A run that is under way: the number of its loops, and the end of its
/// signal that raises it.
struct Run {
    loops: usize,
    stop: StopSender,
}

/// The life cycle of an executor: idle, or running a number of loops. The
/// runs of an executor are numbered from one in the order in which they begin.
pub struct Scheduler {
    run: Option<Run>,
    runs: Ghost<nat>,
}

/// The number of loops after an executor with `running` loops was asked to
/// start with a number of targets. `None` stands for an idle executor.
pub open spec fn after_start(running: Option<usize>, targets: usize) -> Option<usize> {
    match running {
        None => Some(targets),
        Some(loops) => Some(loops),
    }
}

/// The number of loops after an executor was asked to stop: none, the
/// executor is idle.
pub open spec fn after_stop(running: Option<usize>) -> Option<usize> {
    None
}

/// What an executor with `running` loops is to do when it is asked to stop.
pub open spec fn on_stop(running: Option<usize>) -> StopDecision {
    match running {
        None => StopDecision::AlreadyIdle,
        Some(loops) => StopDecision::Shutdown { loops },
    }
}

impl Scheduler {
    /// The number of loops of the run that is under way; `None` while idle.
    pub closed spec fn running(&self) -> Option<usize> {
        match self.run {
            None => None,
            Some(run) => Some(run.loops),
        }
    }

    /// The number of runs that have begun so far, which is the number of the
    /// last of them.
    pub closed spec fn runs(&self) -> nat {
        self.runs@
    }

    /// The number that the kept end of the signal bears, which is the end
    /// that raises the signal; `None` while idle.
    pub closed spec fn kept_signal(&self) -> Option<nat> {
        match self.run {
            None => None,
            Some(run) => Some(run.stop.run()),
        }
    }

    /// An idle scheduler that has begun no run yet.
    pub fn new() -> (r: Scheduler)
        ensures
            r.running() is None,
            r.runs() == 0,
    {
        Scheduler { run: None, runs: Ghost(0) }
    }

    /// Whether a run is under way.
    pub fn is_running(&self) -> (r: bool)
        ensures
            r == self.running() is Some,
    {
        self.run.is_some()
    }

    /// Asks to start a run with the given number of targets.
    ///
    /// An idle scheduler begins a run with the next number. It makes the one
    /// signal of that run, keeps the end that raises it, hands out the end
    /// that the loops watch, and asks for one loop for each target, also where
    /// there is no target. A running scheduler stays as it is.
    pub fn start(&mut self, targets: usize) -> (r: StartDecision)
        ensures
            final(self).running() == after_start(old(self).running(), targets),
            r is Launch == old(self).running() is None,
            r matches StartDecision::Launch { loops, signal } ==> loops == targets && signal.run()
                == final(self).runs() && final(self).kept_signal() == Some(final(self).runs()),
            final(self).runs() == if old(self).running() is None {
                old(self).runs() + 1
            } else {
                old(self).runs()
            },
            old(self).running() is Some ==> final(self).kept_signal() == old(self).kept_signal(),
    {
        if self.run.is_none() {
            let ghost number = self.runs@ + 1;
            let (stop, signal) = stop_signal(Ghost(number));
            self.run = Some(Run { loops: targets, stop });
            self.runs = Ghost(number);
            StartDecision::Launch { loops: targets, signal }
        } else {
            StartDecision::AlreadyRunning
        }
    }

    /// Asks to stop the run.
    ///
    /// A running scheduler raises the signal of the run, once, and becomes
    /// idle; the loops are then to be waited for. An idle scheduler stays as
    /// it is.
    pub fn stop(&mut self) -> (r: StopDecision)
        ensures
            final(self).running() == after_stop(old(self).running()),
            final(self).runs() == old(self).runs(),
            r == on_stop(old(self).running()),
    {
        match self.run.take() {
            Some(run) => {
                run.stop.raise();
                StopDecision::Shutdown { loops: run.loops }
            },
            None => StopDecision::AlreadyIdle,
        }
    }

    /// Gives up a run whose loops could not be launched, so that the failure
    /// can be reported and the executor is idle again. Says whether there was
    /// a run to give up.
    ///
    /// The end that raises the signal of the run is dropped with the run: for
    /// whoever still watches that signal, it counts as raised. The run keeps
    /// its number.
    pub fn abandon(&mut self) -> (r: bool)
        ensures
            final(self).running() is None,
            final(self).runs() == old(self).runs(),
            r == old(self).running() is Some,
    {
        match self.run.take() {
            Some(_) => true,
            None => false,
        }
    }
}

impl Default for Scheduler {
    /// An idle scheduler that has begun no run yet.
    fn default() -> (r: Scheduler)
        ensures
            r.running() is None,
            r.runs() == 0,
    {
        Scheduler::new()
    }
}

/// Stopping twice is stopping once: after a stop the executor is idle, and a
/// second stop finds nothing to do and changes nothing.
pub proof fn stop_is_idempotent(running: Option<usize>)
    ensures
        after_stop(running) is None,
        after_stop(after_stop(running)) == after_stop(running),
        on_stop(after_stop(running)) == StopDecision::AlreadyIdle,
{
}

/// A loop whose signal is raised before it is launched makes no check: it
/// ends at once, and whatever happens afterwards, it starts no check and
/// delivers no report.
pub proof fn raised_before_launch_makes_no_check(events: Seq<LoopEvent>, k: int)
    requires
        0 <= k < events.len(),
        events[0] == LoopEvent::Cancelled,
    ensures
        transition(LoopPhase::Ready, LoopEvent::Cancelled) == (
            LoopPhase::Stopped,
            LoopAction::Halt,
        ),
        action_at(events, k) != LoopAction::StartCheck,
        action_at(events, k) != LoopAction::Deliver,
{
    if k > 0 {
        nothing_follows_cancellation(events, 0, k);
    } else {
        assert(events.take(0).len() == 0);
    }
}

/// A start during a run changes nothing, and the run that a later stop ends
/// is the one that was under way.
pub proof fn start_while_running_is_ignored(running: Option<usize>, targets: usize)
    requires
        running is Some,
    ensures
        after_start(running, targets) == running,
        on_stop(after_start(running, targets)) == on_stop(running),
{
}

/// A run launches one loop for each target and shuts down as many: an idle
/// executor that is started with a number of targets has that number of
/// loops, and a stop then asks to wait for that number and leaves the executor
/// idle. This holds for no target at all as for any other number.
pub proof fn run_ends_where_it_began(targets: usize)
    ensures
        after_start(None, targets) == Some(targets),
        on_stop(after_start(None, targets)) == (StopDecision::Shutdown { loops: targets }),
        after_stop(after_start(None, targets)) is None,
{
}

/// Where the loop of one target stands.
#[derive(Clone, Copy, Debug, PartialEq, Eq, Structural)]
pub enum LoopPhase {
    /// No check was started yet.
    Ready,
    /// A check is under way.
    Checking,
    /// The last check is done; its report is handed out and the rest of the
    /// interval is waited for.
    Pausing,
    /// The loop has ended.
    Stopped,
}

/// What happens to the loop of one target.
#[derive(Clone, Copy, Debug, PartialEq, Eq, Structural)]
pub enum LoopEvent {
    /// The loop is launched.
    Launched,
    /// The check that was under way has returned.
    CheckReturned,
    /// The interval has passed since the last check was started, and the
    /// callback, if it was called, has returned.
    PauseOver,
    /// The signal to stop was seen.
    Cancelled,
}

/// What the loop of one target is to do next.
#[derive(Clone, Copy, Debug, PartialEq, Eq, Structural)]
pub enum LoopAction {
    /// Start the clock of the interval and a check of the target.
    StartCheck,
    /// Take note of the outcome of the check and hand its report to the
    /// callback if the policy selects it; then wait for the rest of the
    /// interval.
    Deliver,
    /// Let the check that is under way go: do not wait for it, and drop what
    /// it returns. The loop has ended.
    Detach,
    /// End the loop.
    Halt,
    /// Nothing: the event does not concern the loop as it stands.
    Ignore,
}

/// The phase that follows a phase on an event, and what the loop is to do.
pub open spec fn transition(phase: LoopPhase, event: LoopEvent) -> (LoopPhase, LoopAction) {
    match (phase, event) {
        (LoopPhase::Stopped, _) => (LoopPhase::Stopped, LoopAction::Ignore),
        (LoopPhase::Checking, LoopEvent::Cancelled) => (LoopPhase::Stopped, LoopAction::Detach),
        (_, LoopEvent::Cancelled) => (LoopPhase::Stopped, LoopAction::Halt),
        (LoopPhase::Ready, LoopEvent::Launched) => (LoopPhase::Checking, LoopAction::StartCheck),
        (LoopPhase::Checking, LoopEvent::CheckReturned) => (
            LoopPhase::Pausing,
            LoopAction::Deliver,
        ),
        (LoopPhase::Pausing, LoopEvent::PauseOver) => (LoopPhase::Checking, LoopAction::StartCheck),
        _ => (phase, LoopAction::Ignore),
    }
}

/// The control of the loop that checks one target again and again.
#[derive(Clone, Copy, Debug, PartialEq, Eq, Structural)]
pub struct ProbeLoop {
    /// Where the loop stands.
    pub phase: LoopPhase,
}

impl ProbeLoop {
    /// The control of a loop that is yet to be launched.
    pub fn new() -> (r: ProbeLoop)
        ensures
            r.phase == LoopPhase::Ready,
    {
        ProbeLoop { phase: LoopPhase::Ready }
    }

    /// Whether the loop has ended.
    pub fn has_stopped(&self) -> (r: bool)
        ensures
            r == (self.phase == LoopPhase::Stopped),
    {
        self.phase == LoopPhase::Stopped
    }

    /// Launches the loop, unless the signal to stop was raised already.
    ///
    /// The signal is looked at once, and the loop does what `launch_seen`
    /// says of the answer: what it does when it is launched, or what it does
    /// when it is cancelled.
    pub fn launch(&mut self, signal: &StopSignal) -> (r: LoopAction)
        ensures
            (final(self).phase, r) == transition(old(self).phase, LoopEvent::Launched)
                || (final(self).phase, r) == transition(old(self).phase, LoopEvent::Cancelled),
    {
        self.launch_seen(signal.is_raised())
    }

    /// Launches the loop, given whether the signal to stop was seen raised.
    ///
    /// A loop whose signal is raised is cancelled: a loop that was yet to be
    /// launched ends at once, and starts no check. A loop whose signal is not
    /// raised is launched: a loop that was yet to be launched starts its first
    /// check.
    pub fn launch_seen(&mut self, raised: bool) -> (r: LoopAction)
        ensures
            (final(self).phase, r) == transition(
                old(self).phase,
                if raised {
                    LoopEvent::Cancelled
                } else {
                    LoopEvent::Launched
                },
            ),
    {
        if raised {
            self.step(LoopEvent::Cancelled)
        } else {
            self.step(LoopEvent::Launched)
        }
    }

    /// Takes an event and says what the loop is to do.
    ///
    /// A launched loop starts a check. When the check has returned, its
    /// outcome is delivered and the loop pauses; when the pause is over, the
    /// next check starts. The signal to stop ends the loop wherever it
    /// stands: a check that is under way is let go, not waited for. A loop
    /// that has ended ignores every event, and so does any loop an event that
    /// does not fit its phase.
    pub fn step(&mut self, event: LoopEvent) -> (r: LoopAction)
        ensures
            (final(self).phase, r) == transition(old(self).phase, event),
    {
        let (phase, action) = match (self.phase, event) {
            (LoopPhase::Stopped, _) => (LoopPhase::Stopped, LoopAction::Ignore),
            (LoopPhase::Checking, LoopEvent::Cancelled) => (LoopPhase::Stopped, LoopAction::Detach),
            (_, LoopEvent::Cancelled) => (LoopPhase::Stopped, LoopAction::Halt),
            (LoopPhase::Ready, LoopEvent::Launched) => (
                LoopPhase::Checking,
                LoopAction::StartCheck,
            ),
            (LoopPhase::Checking, LoopEvent::CheckReturned) => (
                LoopPhase::Pausing,
                LoopAction::Deliver,
            ),
            (LoopPhase::Pausing, LoopEvent::PauseOver) => (
                LoopPhase::Checking,
                LoopAction::StartCheck,
            ),
            (phase, _) => (phase, LoopAction::Ignore),
        };
        self.phase = phase;
        action
    }
}

/// The phase of a loop that began in `phase` and has taken `events`, the
/// first one first.
pub open spec fn phase_after(phase: LoopPhase, events: Seq<LoopEvent>) -> LoopPhase
    decreases events.len(),
{
    if events.len() == 0 {
        phase
    } else {
        transition(phase_after(phase, events.drop_last()), events.last()).0
    }
}

/// What a new loop does on the event at place `k` of `events`.
pub open spec fn action_at(events: Seq<LoopEvent>, k: int) -> LoopAction {
    transition(phase_after(LoopPhase::Ready, events.take(k)), events[k]).1
}

/// How often a new loop that has taken `events` has done `action`.
pub open spec fn times_done(events: Seq<LoopEvent>, action: LoopAction) -> nat
    decreases events.len(),
{
    if events.len() == 0 {
        0
    } else {
        let earlier = times_done(events.drop_last(), action);
        if action_at(events, events.len() - 1) == action {
            earlier + 1
        } else {
            earlier
        }
    }
}

/// The signal to stop ends a loop at once, wherever it stands.
///
/// On the signal a loop ends in one step. It starts no check and delivers no
/// report; a check that is under way is let go, not waited for, so that the
/// time to stop does not depend on how long a check takes.
pub proof fn cancellation_ends_the_loop(phase: LoopPhase)
    ensures
        transition(phase, LoopEvent::Cancelled).0 == LoopPhase::Stopped,
        transition(phase, LoopEvent::Cancelled).1 == match phase {
            LoopPhase::Checking => LoopAction::Detach,
            LoopPhase::Stopped => LoopAction::Ignore,
            _ => LoopAction::Halt,
        },
{
}

/// A loop that has ended stays ended, whatever happens.
pub proof fn stopped_is_final(events: Seq<LoopEvent>)
    ensures
        phase_after(LoopPhase::Stopped, events) == LoopPhase::Stopped,
    decreases events.len(),
{
    if events.len() > 0 {
        stopped_is_final(events.drop_last());
    }
}

/// Nothing follows the signal to stop: once a loop has seen the signal, it
/// ignores every later event. No check is started and no report delivered, not
/// even that of a check which was under way when the signal came.
pub proof fn nothing_follows_cancellation(events: Seq<LoopEvent>, seen: int, later: int)
    requires
        0 <= seen < later < events.len(),
        events[seen] == LoopEvent::Cancelled,
    ensures
        action_at(events, later) == LoopAction::Ignore,
{
    lemma_stopped_from(events.take(later), seen);
}

/// A loop is stopped after every event that follows the signal to stop.
proof fn lemma_stopped_from(events: Seq<LoopEvent>, seen: int)
    requires
        0 <= seen < events.len(),
        events[seen] == LoopEvent::Cancelled,
    ensures
        phase_after(LoopPhase::Ready, events) == LoopPhase::Stopped,
    decreases events.len(),
{
    if seen < events.len() - 1 {
        lemma_stopped_from(events.drop_last(), seen);
    }
}

/// One check at a time: a loop starts a check only when none is under way.
///
/// At any moment a loop has started as many checks as it has delivered, or one
/// more. It has started one more while a check is under way, and as many
/// while it is ready or pausing.
pub proof fn one_check_at_a_time(events: Seq<LoopEvent>)
    ensures
        times_done(events, LoopAction::Deliver) <= times_done(events, LoopAction::StartCheck)
            <= times_done(events, LoopAction::Deliver) + 1,
        match phase_after(LoopPhase::Ready, events) {
            LoopPhase::Checking => times_done(events, LoopAction::StartCheck) == times_done(
                events,
                LoopAction::Deliver,
            ) + 1,
            LoopPhase::Ready | LoopPhase::Pausing => times_done(events, LoopAction::StartCheck)
                == times_done(events, LoopAction::Deliver),
            LoopPhase::Stopped => true,
        },
    decreases events.len(),
{
    if events.len() > 0 {
        one_check_at_a_time(events.drop_last());
    }
}

} // verus!
