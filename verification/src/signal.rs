//! The signal that ends the loops of one run.
//!
//! A run has one signal. The executor keeps the end that raises it, and every
//! loop of the run watches a copy of the other end. The signal is a watch
//! channel of tokio: raising it sends a value, and a loop sees it raised when
//! the channel has changed or has lost its sender.
//!
//! Each end of a signal bears the number of the run that the signal was made
//! for; an executor numbers its runs. The ends of one signal bear the same
//! number, and so does every copy: among the signals of one executor, what
//! bears the number of a run is an end of the one signal of that run.

use tokio::sync::watch::Receiver;
use tokio::sync::watch::Sender;
use vstd::prelude::*;

verus! {

/// The sender of a watch channel of tokio. The proofs see nothing inside it.
#[verifier::external_type_specification]
#[verifier::external_body]
#[verifier::reject_recursive_types(T)]
pub struct ExSender<T>(Sender<T>);

/// A receiver of a watch channel of tokio. The proofs see nothing inside it.
#[verifier::external_type_specification]
#[verifier::external_body]
#[verifier::reject_recursive_types(T)]
pub struct ExReceiver<T>(Receiver<T>);

/// `tokio::sync::watch::channel` on the unit value: a new channel, as its
/// sender and its first receiver. Nothing is claimed of them.
#[verifier::external_body]
fn watch_channel() -> (r: (Sender<()>, Receiver<()>)) {
    tokio::sync::watch::channel(())
}

/// `Sender::send` of a watch channel, on the unit value: says whether the value
/// was taken, which it is not when no receiver is left. Nothing is claimed of
/// the answer.
#[verifier::external_body]
fn watch_send(sender: &Sender<()>) -> (r: bool) {
    sender.send(()).is_ok()
}

/// `Receiver::has_changed` of a watch channel: whether a value was sent that
/// this receiver has not seen, or an error when no sender is left; the error
/// comes back as `None`. Nothing is claimed of the answer.
#[verifier::external_body]
fn watch_has_changed(receiver: &Receiver<()>) -> (r: Option<bool>) {
    receiver.has_changed().ok()
}

/// `Receiver::clone` of a watch channel: another receiver of the same channel.
/// Nothing is claimed of it.
#[verifier::external_body]
fn watch_subscribe(receiver: &Receiver<()>) -> (r: Receiver<()>) {
    receiver.clone()
}

/// The end of a signal that raises it. It is used up by raising the signal,
/// so that a signal is raised once at most.
pub struct StopSender {
    sender: Sender<()>,
    run: Ghost<nat>,
}

/// The end of a signal that a loop watches.
pub struct StopSignal {
    receiver: Receiver<()>,
    run: Ghost<nat>,
}

/// Makes the signal of the run with the given number: a new channel, whose
/// two ends both bear that number.
pub(crate) fn stop_signal(Ghost(run): Ghost<nat>) -> (r: (StopSender, StopSignal))
    ensures
        r.0.run() == run,
        r.1.run() == run,
{
    let (sender, receiver) = watch_channel();
    (StopSender { sender, run: Ghost(run) }, StopSignal { receiver, run: Ghost(run) })
}

/// What a look at the channel of a signal means: the signal counts as raised
/// when the channel has changed, and also when the look failed because no
/// sender is left, so that it can no longer be raised.
pub open spec fn counts_as_raised(seen: Option<bool>) -> bool {
    seen != Some(false)
}

/// Says what a look at the channel of a signal means.
pub fn seen_raised(seen: Option<bool>) -> (r: bool)
    ensures
        r == counts_as_raised(seen),
{
    match seen {
        Some(changed) => changed,
        None => true,
    }
}

impl StopSender {
    /// The number of the run whose signal this end raises.
    pub closed spec fn run(&self) -> nat {
        self.run@
    }

    /// Raises the signal. Says whether a loop was left to see it, which
    /// depends on what the loops have done by now.
    pub(crate) fn raise(self) -> (r: bool) {
        watch_send(&self.sender)
    }
}

impl StopSignal {
    /// The number of the run whose signal this end watches.
    pub closed spec fn run(&self) -> nat {
        self.run@
    }

    /// The receiver of the channel of the signal.
    pub closed spec fn receiver(&self) -> Receiver<()> {
        self.receiver
    }

    /// Whether the signal was raised, or can no longer be raised because the
    /// end that raises it is gone. The answer is what one look at the channel
    /// means, and depends on what the executor has done by now.
    pub fn is_raised(&self) -> (r: bool) {
        seen_raised(watch_has_changed(&self.receiver))
    }

    /// A copy of the signal for another loop: another end of the same signal,
    /// which bears the number of the same run.
    pub fn share(&self) -> (r: StopSignal)
        ensures
            r.run() == self.run(),
    {
        StopSignal { receiver: watch_subscribe(&self.receiver), run: self.run }
    }

    /// Gives up this end of the signal for the receiver of its channel, on
    /// which a loop waits until the signal is raised.
    pub fn into_receiver(self) -> (r: Receiver<()>)
        ensures
            r == self.receiver(),
    {
        self.receiver
    }
}

} // verus!
