//! The timing of the checks of one target.
//!
//! A check and the callback that follows it keep a loop busy for some time.
//! The next check starts when the interval has passed since the last one was
//! started, or when the loop is no longer busy, whichever comes later. Times
//! are counted in nanoseconds.

use vstd::prelude::*;

verus! {

/// The time that a loop still waits after it was busy for `busy` of its
/// interval.
pub open spec fn pause(interval: nat, busy: nat) -> nat {
    if busy >= interval {
        0
    } else {
        (interval - busy) as nat
    }
}

/// The time from the start of one check to the start of the next.
pub open spec fn period(interval: nat, busy: nat) -> nat {
    busy + pause(interval, busy)
}

/// The time at which a loop starts its check number `k`, counted from zero,
/// where `busy` holds the time that each check and its callback take. The
/// first check starts at time zero.
pub open spec fn check_start(interval: nat, busy: Seq<nat>, k: nat) -> nat
    decreases k,
{
    if k == 0 {
        0
    } else {
        check_start(interval, busy, (k - 1) as nat) + period(interval, busy[k - 1])
    }
}

/// The number of checks that a loop which is never late starts before
/// `duration` has passed, at an interval above zero.
pub open spec fn checks_within(interval: nat, duration: nat) -> nat {
    if duration == 0 {
        0
    } else {
        ((duration - 1) / interval as int + 1) as nat
    }
}

/// The sum of the numbers in a sequence.
pub open spec fn total(counts: Seq<nat>) -> nat
    decreases counts.len(),
{
    if counts.len() == 0 {
        0
    } else {
        total(counts.drop_last()) + counts.last()
    }
}

/// The time that a loop still waits after it was busy for `busy` nanoseconds
/// of an interval of `interval` nanoseconds: the rest of the interval, and
/// nothing where the loop was busy for longer.
pub fn pause_after(interval: u128, busy: u128) -> (r: u128)
    ensures
        r == pause(interval as nat, busy as nat),
{
    if busy >= interval {
        0
    } else {
        interval - busy
    }
}

/// The time from one check to the next is the interval or the time that the
/// loop was busy, whichever is longer: a callback that is faster than the
/// interval does not lengthen the period, and one that is slower stretches the
/// period to the time that it takes.
pub proof fn period_is_the_longer_of_both(interval: nat, busy: nat)
    ensures
        period(interval, busy) == if busy >= interval {
            busy
        } else {
            interval
        },
{
}

/// The callback may run while the rest of the interval passes. A loop that
/// pauses for what a check has left of the interval, and calls the callback
/// meanwhile, goes on when both the pause is over and the callback has
/// returned. That is the period of a loop that was busy with the check and
/// the callback one after the other.
pub proof fn callback_runs_during_the_pause(interval: nat, check: nat, callback: nat)
    ensures
        period(interval, check + callback) == check + if callback >= pause(interval, check) {
            callback
        } else {
            pause(interval, check)
        },
{
}

/// No check starts early: check number `k` starts no sooner than `k`
/// intervals after the first.
pub proof fn checks_are_never_early(interval: nat, busy: Seq<nat>, k: nat)
    requires
        k <= busy.len(),
    ensures
        check_start(interval, busy, k) >= k * interval,
    decreases k,
{
    if k > 0 {
        let before = (k - 1) as nat;
        checks_are_never_early(interval, busy, before);
        assert(k * interval == before * interval + interval) by (nonlinear_arith)
            requires
                k == before + 1,
        ;
    } else {
        assert(k * interval == 0) by (nonlinear_arith)
            requires
                k == 0,
        ;
    }
}

/// A loop that is never busy for longer than its interval keeps its schedule:
/// check number `k` starts exactly `k` intervals after the first.
pub proof fn punctual_checks_keep_the_schedule(interval: nat, busy: Seq<nat>, k: nat)
    requires
        k <= busy.len(),
        forall|i: int| 0 <= i < k ==> #[trigger] busy[i] <= interval,
    ensures
        check_start(interval, busy, k) == k * interval,
    decreases k,
{
    if k > 0 {
        let before = (k - 1) as nat;
        punctual_checks_keep_the_schedule(interval, busy, before);
        assert(k * interval == before * interval + interval) by (nonlinear_arith)
            requires
                k == before + 1,
        ;
    } else {
        assert(k * interval == 0) by (nonlinear_arith)
            requires
                k == 0,
        ;
    }
}

/// A loop on schedule starts `duration / interval` checks in a time of
/// `duration`, or one more.
///
/// Check number `k` of such a loop starts at `k * interval`. The checks that
/// start before `duration` has passed are those with a number below
/// `checks_within(interval, duration)`, and that count is the quotient of
/// `duration` by `interval`, or one more.
pub proof fn checks_on_schedule_are_counted(interval: nat, duration: nat, k: nat)
    requires
        interval > 0,
    ensures
        k * interval < duration <==> k < checks_within(interval, duration),
        duration / interval <= checks_within(interval, duration) <= duration / interval + 1,
{
    let i = interval as int;
    let d = duration as int;
    if duration > 0 {
        let q = (d - 1) / i;
        assert(q * i <= d - 1 < q * i + i && q >= 0) by (nonlinear_arith)
            requires
                i > 0,
                d >= 1,
                q == (d - 1) / i,
        ;
        assert(k * i < d <==> k <= q) by (nonlinear_arith)
            requires
                i > 0,
                k >= 0,
                q * i <= d - 1 < q * i + i,
        ;
        let p = d / i;
        assert(p * i <= d < p * i + i) by (nonlinear_arith)
            requires
                i > 0,
                d >= 0,
                p == d / i,
        ;
        assert(q <= p <= q + 1) by (nonlinear_arith)
            requires
                i > 0,
                q * i <= d - 1 < q * i + i,
                p * i <= d < p * i + i,
        ;
    } else {
        assert(0int / i == 0) by (nonlinear_arith)
            requires
                i > 0,
        ;
        assert(k * i >= 0) by (nonlinear_arith)
            requires
                i > 0,
                k >= 0,
        ;
    }
}

/// Targets that are checked side by side add up: where each of a number of
/// loops has made `each` checks or one more, all of them together have made
/// that number times `each`, or up to one more for each loop.
pub proof fn side_by_side_counts_add_up(counts: Seq<nat>, each: nat)
    requires
        forall|i: int| 0 <= i < counts.len() ==> each <= #[trigger] counts[i] <= each + 1,
    ensures
        counts.len() * each <= total(counts) <= counts.len() * each + counts.len(),
    decreases counts.len(),
{
    if counts.len() > 0 {
        let front = counts.drop_last();
        side_by_side_counts_add_up(front, each);
        assert(counts.len() * each == front.len() * each + each) by (nonlinear_arith)
            requires
                counts.len() == front.len() + 1,
        ;
    }
}

} // verus!
