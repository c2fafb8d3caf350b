use reachable::{CheckOutcome, CheckTargetError, EndpointAsync, Exec, OldStatus, Status, Target};
use reachable::{Scheduler, StartDecision, StopDecision};
use std::cell::RefCell;
use std::collections::VecDeque;
use std::rc::Rc;
use std::sync::atomic::{AtomicU64, Ordering};
use std::sync::Arc;
use std::time::Duration;

/// A target that always answers.
struct Steady {
    id: String,
    status: Status,
}

impl Target for Steady {
    fn get_id(&self) -> String {
        self.id.clone()
    }

    fn check_availability(&self) -> Result<Status, CheckTargetError> {
        Ok(self.status.clone())
    }
}

/// A target whose checks come to the outcomes it was given, one after the
/// other.
struct Sequenced {
    outcomes: RefCell<VecDeque<CheckOutcome>>,
}

impl Target for Sequenced {
    fn get_id(&self) -> String {
        String::from("sequenced")
    }

    fn check_availability(&self) -> Result<Status, CheckTargetError> {
        self.outcomes.borrow_mut().pop_front().unwrap()
    }
}

fn localhost() -> Steady {
    Steady { id: String::from("127.0.0.1"), status: Status::Available }
}

fn sequenced(outcomes: Vec<CheckOutcome>) -> Sequenced {
    Sequenced { outcomes: RefCell::new(VecDeque::from(outcomes)) }
}

#[test]
fn endpoint_async_execute_on_update_3s() {
    // Three checks at an interval of one second: with OnUpdate the callback
    // is executed three times.
    let cnt = Arc::new(AtomicU64::new(0));
    let cnt_clone = Arc::clone(&cnt);

    let func = move |_t: &Steady, _s: Status, _ls: OldStatus, _e: Option<CheckTargetError>| {
        cnt_clone.fetch_add(1, Ordering::Relaxed);
    };

    let mut ep = EndpointAsync::new(localhost(), Exec::OnUpdate, func, Duration::from_secs(1));
    for _ in 0..3 {
        ep.update_status();
    }

    assert_eq!(cnt.load(Ordering::Relaxed), 3);
}

#[test]
fn endpoint_async_execute_on_status_change() {
    // Three checks at an interval of one second: with OnStatusChange the
    // callback is executed once.
    let cnt = Arc::new(AtomicU64::new(0));
    let cnt_clone = Arc::clone(&cnt);

    let func = move |_t: &Steady, _s: Status, _ls: OldStatus, _e: Option<CheckTargetError>| {
        cnt_clone.fetch_add(1, Ordering::Relaxed);
    };

    let mut ep = EndpointAsync::new(localhost(), Exec::OnStatusChange, func, Duration::from_secs(1));
    for _ in 0..3 {
        ep.update_status();
    }

    assert_eq!(cnt.load(Ordering::Relaxed), 1);
}

#[test]
fn executor_start_stop_no_endpoint() {
    // An executor without endpoints starts and stops.
    let mut exec = Scheduler::new();
    assert!(matches!(exec.start(0), StartDecision::Launch { loops: 0, .. }));
    assert_eq!(exec.stop(), StopDecision::Shutdown { loops: 0 });
    assert!(!exec.is_running());
}

#[test]
fn executor_start_stop_concurent_endpoints_3s() {
    // A number of endpoints are checked three times each. Every check adds
    // one to a count that they share, which ends at the number of endpoints
    // times the number of checks.
    let spawned_endpoints = 50;
    let runtime_sec = 3;
    let cnt = Arc::new(AtomicU64::new(0));

    let mut eps = vec![];
    for _ in 0..spawned_endpoints {
        let c = cnt.clone();
        let f = move |_t: &Steady, _s: Status, _ls: OldStatus, _e: Option<CheckTargetError>| {
            c.fetch_add(1, Ordering::Relaxed);
        };
        eps.push(EndpointAsync::new(localhost(), Exec::OnUpdate, f, Duration::from_secs(1)));
    }

    let mut exec = Scheduler::new();
    assert!(matches!(exec.start(eps.len()), StartDecision::Launch { loops: 50, .. }));
    for _ in 0..runtime_sec {
        for ep in eps.iter_mut() {
            ep.update_status();
        }
    }
    assert_eq!(exec.stop(), StopDecision::Shutdown { loops: 50 });

    assert_eq!(cnt.load(Ordering::Relaxed), spawned_endpoints * runtime_sec);
}

#[test]
fn basic_usage_async() {
    // Two endpoints for the local host are checked three times. One executes
    // its function on every check, the other when the status has changed.
    let check_interval = Duration::from_secs(1);
    let counter_on_update = Arc::new(AtomicU64::new(0));
    let counter_on_status_change = Arc::new(AtomicU64::new(0));

    let counter_on_update_clone = counter_on_update.clone();
    let count_on_update =
        move |_target: &Steady, _status: Status, _old: OldStatus, _e: Option<CheckTargetError>| {
            counter_on_update_clone.fetch_add(1, Ordering::Relaxed);
        };

    let counter_on_status_change_clone = counter_on_status_change.clone();
    let count_on_status_change =
        move |_target: &Steady, _status: Status, _old: OldStatus, _e: Option<CheckTargetError>| {
            counter_on_status_change_clone.fetch_add(1, Ordering::Relaxed);
        };

    let target = || Steady { id: String::from("::1"), status: Status::Available };
    let mut endpoint_count_on_update =
        reachable::EndpointAsync::new(target(), reachable::Exec::OnUpdate, count_on_update, check_interval);
    let mut endpoint_count_on_status_change = reachable::EndpointAsync::new(
        target(),
        reachable::Exec::OnStatusChange,
        count_on_status_change,
        check_interval,
    );

    for _ in 0..3 {
        endpoint_count_on_update.update_status();
        endpoint_count_on_status_change.update_status();
    }

    assert_eq!(counter_on_update.load(Ordering::Relaxed), 3);
    assert_eq!(counter_on_status_change.load(Ordering::Relaxed), 1);
}

#[test]
fn endpoint_async_holds_what_it_was_given() {
    let handler = |_: &Steady, _: Status, _: OldStatus, _: Option<CheckTargetError>| {};
    let ep = EndpointAsync::new(localhost(), Exec::OnStatusChange, handler, Duration::from_millis(20));
    assert_eq!(ep.get_target().get_id(), "127.0.0.1");
    assert_eq!(ep.get_status(), Status::Unknown);
    assert_eq!(ep.get_policy(), Exec::OnStatusChange);
    assert_eq!(*ep.get_interval(), Duration::from_millis(20));
}

#[test]
fn exec_selects_the_checks_that_are_reported() {
    let all = [Status::Unknown, Status::Available, Status::NotAvailable];
    for status in all {
        for old_status in all {
            assert!(Exec::OnUpdate.should_execute(status, old_status));
            assert_eq!(
                Exec::OnStatusChange.should_execute(status, old_status),
                status != old_status
            );
        }
    }
    assert_eq!(Exec::default(), Exec::OnUpdate);
}

#[test]
fn evaluate_returns_the_report_that_the_policy_selects() {
    let handler = |_: &Sequenced, _: Status, _: OldStatus, _: Option<CheckTargetError>| {};
    let mut ep = EndpointAsync::new(sequenced(vec![]), Exec::OnStatusChange, handler, Duration::ZERO);

    let report = ep.evaluate(Ok(Status::Available)).unwrap();
    assert_eq!((report.status, report.old_status), (Status::Available, Status::Unknown));
    assert!(report.error.is_none());

    assert!(ep.evaluate(Ok(Status::Available)).is_none());
    assert_eq!(ep.get_status(), Status::Available);

    let report = ep.evaluate(Err(CheckTargetError::from("down"))).unwrap();
    assert_eq!((report.status, report.old_status), (Status::Unknown, Status::Available));
    assert_eq!(report.error.unwrap().to_string(), "down");

    // A second failure changes nothing and is dropped with its error.
    assert!(ep.evaluate(Err(CheckTargetError::from("still down"))).is_none());
    assert!(ep.evaluate(Ok(Status::Unknown)).is_none());
    assert_eq!(ep.get_status(), Status::Unknown);
}

#[test]
fn on_status_change_reports_start_where_the_last_one_ended() {
    // The old status of each report is the new status of the report before
    // it, also where checks in between were not reported.
    let seen = Rc::new(RefCell::new(Vec::new()));
    let sink = seen.clone();
    let handler = move |_: &Sequenced, new: Status, old: OldStatus, error: Option<CheckTargetError>| {
        sink.borrow_mut().push((old, new, error.is_some()));
    };
    let target = sequenced(vec![
        Ok(Status::Available),
        Ok(Status::Available),
        Ok(Status::NotAvailable),
        Ok(Status::NotAvailable),
        Ok(Status::NotAvailable),
        Err(CheckTargetError::from("gone")),
        Err(CheckTargetError::from("gone")),
        Ok(Status::Available),
    ]);
    let mut ep = EndpointAsync::new(target, Exec::OnStatusChange, handler, Duration::ZERO);
    let mut called = Vec::new();
    for _ in 0..8 {
        called.push(ep.update_status());
    }

    assert_eq!(called, vec![true, false, true, false, false, true, false, true]);
    assert_eq!(
        *seen.borrow(),
        vec![
            (Status::Unknown, Status::Available, false),
            (Status::Available, Status::NotAvailable, false),
            (Status::NotAvailable, Status::Unknown, true),
            (Status::Unknown, Status::Available, false),
        ]
    );
}

#[test]
fn on_status_change_never_reports_a_target_that_stays_unknown() {
    let cnt = Rc::new(RefCell::new(0));
    let sink = cnt.clone();
    let handler = move |_: &Sequenced, _: Status, _: OldStatus, _: Option<CheckTargetError>| {
        *sink.borrow_mut() += 1;
    };
    let target = sequenced(vec![
        Err(CheckTargetError::from("a")),
        Ok(Status::Unknown),
        Err(CheckTargetError::from("b")),
    ]);
    let mut ep = EndpointAsync::new(target, Exec::OnStatusChange, handler, Duration::ZERO);
    for _ in 0..3 {
        assert!(!ep.update_status());
    }
    assert_eq!(*cnt.borrow(), 0);
}

#[test]
fn deliver_calls_the_callback_with_the_target() {
    let ids = Rc::new(RefCell::new(Vec::new()));
    let sink = ids.clone();
    let handler = move |target: &Steady, _: Status, _: OldStatus, _: Option<CheckTargetError>| {
        sink.borrow_mut().push(target.get_id());
    };
    let mut ep = EndpointAsync::new(localhost(), Exec::OnUpdate, handler, Duration::ZERO);
    assert!(ep.deliver(Ok(Status::NotAvailable)));
    assert!(ep.deliver(Ok(Status::NotAvailable)));
    assert_eq!(*ids.borrow(), vec!["127.0.0.1", "127.0.0.1"]);
    assert_eq!(ep.get_status(), Status::NotAvailable);
}

#[test]
fn check_returned_delivers_to_a_loop_that_waits() {
    let seen = Rc::new(RefCell::new(Vec::new()));
    let sink = seen.clone();
    let handler = move |_: &Steady, new: Status, old: OldStatus, _: Option<CheckTargetError>| {
        sink.borrow_mut().push((old, new));
    };
    let mut ep = EndpointAsync::new(localhost(), Exec::OnStatusChange, handler, Duration::ZERO);
    let mut control = reachable::ProbeLoop::new();
    assert_eq!(control.step(reachable::LoopEvent::Launched), reachable::LoopAction::StartCheck);

    let action = ep.check_returned(&mut control, Ok(Status::Available));
    assert_eq!(action, reachable::LoopAction::Deliver);
    assert_eq!(control.phase, reachable::LoopPhase::Pausing);
    assert_eq!(ep.get_status(), Status::Available);
    assert_eq!(*seen.borrow(), vec![(Status::Unknown, Status::Available)]);
}

#[test]
fn check_returned_drops_what_a_stopped_loop_gets() {
    // The loop is stopped while a check is under way. What the check returns
    // later changes nothing and is not reported.
    let seen = Rc::new(RefCell::new(Vec::new()));
    let sink = seen.clone();
    let handler = move |_: &Steady, new: Status, old: OldStatus, _: Option<CheckTargetError>| {
        sink.borrow_mut().push((old, new));
    };
    let mut ep = EndpointAsync::new(localhost(), Exec::OnUpdate, handler, Duration::ZERO);
    let mut control = reachable::ProbeLoop::new();
    assert_eq!(control.step(reachable::LoopEvent::Launched), reachable::LoopAction::StartCheck);
    assert_eq!(control.step(reachable::LoopEvent::Cancelled), reachable::LoopAction::Detach);

    let action = ep.check_returned(&mut control, Ok(Status::Available));
    assert_eq!(action, reachable::LoopAction::Ignore);
    assert!(control.has_stopped());
    assert_eq!(ep.get_status(), Status::Unknown);
    assert!(seen.borrow().is_empty());
}
