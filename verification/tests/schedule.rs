use reachable::pause_after;

#[test]
fn pause_is_the_rest_of_the_interval() {
    assert_eq!(pause_after(1_000_000_000, 0), 1_000_000_000);
    assert_eq!(pause_after(1_000_000_000, 250_000_000), 750_000_000);
    assert_eq!(pause_after(1_000_000_000, 999_999_999), 1);
}

#[test]
fn pause_is_nothing_after_a_slow_check() {
    assert_eq!(pause_after(1_000_000_000, 1_000_000_000), 0);
    assert_eq!(pause_after(1_000_000_000, 7_000_000_000), 0);
    assert_eq!(pause_after(5, u128::MAX), 0);
}

#[test]
fn pause_of_an_interval_of_zero_is_nothing() {
    // An interval of zero is legal: the checks follow one another.
    assert_eq!(pause_after(0, 0), 0);
    assert_eq!(pause_after(0, 12), 0);
}

#[test]
fn pause_takes_the_largest_interval() {
    assert_eq!(pause_after(u128::MAX, 0), u128::MAX);
    assert_eq!(pause_after(u128::MAX, u128::MAX - 1), 1);
}

#[test]
fn three_seconds_at_one_second_are_three_checks() {
    // A loop on schedule starts its checks at 0 s, 1 s and 2 s: the time from
    // one start to the next is the time the loop was busy and its pause.
    let interval: u128 = 1_000_000_000;
    let busy: [u128; 4] = [3_000_000, 120_000_000, 999_000_000, 40_000_000];
    let mut start: u128 = 0;
    let mut started = Vec::new();
    for took in busy {
        if start < 3 * interval {
            started.push(start);
        }
        start += took + pause_after(interval, took);
    }
    assert_eq!(started, vec![0, interval, 2 * interval]);
}

#[test]
fn a_slow_callback_stretches_the_period() {
    let interval: u128 = 100;
    let busy: [u128; 3] = [30, 250, 100];
    let mut start: u128 = 0;
    let mut starts = vec![start];
    for took in busy {
        start += took + pause_after(interval, took);
        starts.push(start);
    }
    assert_eq!(starts, vec![0, 100, 350, 450]);
}
