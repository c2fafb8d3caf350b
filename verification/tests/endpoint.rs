use reachable::{CheckOutcome, CheckTargetError, Endpoint, IcmpTarget, TcpTarget};
use reachable::{IpAddress, ResolvePolicy, Status, Target};
use std::cell::RefCell;
use std::collections::VecDeque;

const LOCALHOST_V4: IpAddress = IpAddress::V4(0x7f00_0001);
const LOCALHOST_V6: IpAddress = IpAddress::V6(1);

/// An ICMP target whose name resolves to the given addresses, all of which
/// answer.
struct Answering {
    target: IcmpTarget,
    addresses: Vec<IpAddress>,
}

impl Target for Answering {
    fn get_id(&self) -> String {
        self.target.get_id()
    }

    fn check_availability(&self) -> Result<Status, CheckTargetError> {
        self.target.check_availability_with(Ok(self.addresses.clone()), |_| true)
    }
}

/// A TCP target whose name resolves to the given addresses, all of which
/// accept the connection.
struct Listening {
    target: TcpTarget,
    addresses: Vec<IpAddress>,
}

impl Target for Listening {
    fn get_id(&self) -> String {
        self.target.get_id()
    }

    fn check_availability(&self) -> Result<Status, CheckTargetError> {
        self.target.check_availability_with(Ok(self.addresses.clone()), |_| true)
    }
}

/// A target whose checks come to the outcomes it was given, one after the
/// other.
struct Scripted {
    outcomes: RefCell<VecDeque<CheckOutcome>>,
}

impl Scripted {
    fn new(outcomes: Vec<CheckOutcome>) -> Scripted {
        Scripted { outcomes: RefCell::new(VecDeque::from(outcomes)) }
    }
}

impl Target for Scripted {
    fn get_id(&self) -> String {
        String::from("scripted")
    }

    fn check_availability(&self) -> Result<Status, CheckTargetError> {
        self.outcomes.borrow_mut().pop_front().unwrap()
    }
}

fn icmp(name: &str, policy: ResolvePolicy, addresses: Vec<IpAddress>) -> Answering {
    Answering { target: IcmpTarget::new(String::from(name), policy), addresses }
}

fn tcp(name: &str, port: u16, policy: ResolvePolicy, addresses: Vec<IpAddress>) -> Listening {
    let target = TcpTarget::new(
        String::from(name),
        port,
        reachable::default_tcp_connect_timeout(),
        policy,
    );
    Listening { target, addresses }
}

#[test]
fn icmp_endpoint_is_available() {
    let target = icmp("127.0.0.1", ResolvePolicy::Agnostic, vec![LOCALHOST_V4]);
    let mut endpoint = Endpoint::new(target);

    assert_eq!(endpoint.get_status(), Status::Unknown);
    assert_eq!(endpoint.update_status(), Status::Available);
    assert_eq!(endpoint.get_status(), Status::Available);
}

#[test]
fn icmp_on_ipv4_endpoint_is_available() {
    let target = icmp("127.0.0.1", ResolvePolicy::ResolveToIPv4, vec![LOCALHOST_V4]);
    let mut endpoint = Endpoint::new(target);

    assert_eq!(endpoint.get_status(), Status::Unknown);
    assert_eq!(endpoint.update_status(), Status::Available);
    assert_eq!(endpoint.get_status(), Status::Available);
}

#[test]
fn icmp_on_ipv6_endpoint_is_available() {
    let target = icmp("::1", ResolvePolicy::ResolveToIPv6, vec![LOCALHOST_V6]);
    let mut endpoint = Endpoint::new(target);

    assert_eq!(endpoint.get_status(), Status::Unknown);
    assert_eq!(endpoint.update_status(), Status::Available);
    assert_eq!(endpoint.get_status(), Status::Available);
}

#[test]
fn tcp_endpoint_is_available() {
    let target = tcp("127.0.0.1", 24211, ResolvePolicy::Agnostic, vec![LOCALHOST_V4]);
    let mut endpoint = Endpoint::new(target);
    assert_eq!(endpoint.get_status(), Status::Unknown);
    assert_eq!(endpoint.update_status(), Status::Available);
    assert_eq!(endpoint.get_status(), Status::Available);
}

#[test]
fn tcp_on_ipv6_endpoint_is_available() {
    let target = tcp("::1", 24212, ResolvePolicy::ResolveToIPv6, vec![LOCALHOST_V6]);
    let mut endpoint = Endpoint::new(target);
    assert_eq!(endpoint.get_status(), Status::Unknown);
    assert_eq!(endpoint.update_status(), Status::Available);
    assert_eq!(endpoint.get_status(), Status::Available);
}

#[test]
fn tcp_on_ipv4_endpoint_is_available() {
    let target = tcp("127.0.0.1", 24213, ResolvePolicy::ResolveToIPv4, vec![LOCALHOST_V4]);
    let mut endpoint = Endpoint::new(target);
    assert_eq!(endpoint.get_status(), Status::Unknown);
    assert_eq!(endpoint.update_status(), Status::Available);
    assert_eq!(endpoint.get_status(), Status::Available);
}

#[test]
fn basic_usage() {
    // Checks whether the local host is available.
    let target = icmp("::1", ResolvePolicy::ResolveToIPv6, vec![LOCALHOST_V6]);
    let mut endpoint = reachable::Endpoint::new(target);

    // A new endpoint is in the unknown state.
    assert_eq!(endpoint.get_status(), reachable::Status::Unknown);

    // The local host answers, so that the status becomes "Available".
    assert_eq!(endpoint.update_status(), reachable::Status::Available);
    assert_eq!(endpoint.get_status(), reachable::Status::Available);
}

#[test]
fn endpoint_is_unknown_where_the_name_does_not_resolve() {
    // The name resolves to an address of version 4 only; the policy wants 6.
    let target = icmp("127.0.0.1", ResolvePolicy::ResolveToIPv6, vec![LOCALHOST_V4]);
    let mut endpoint = Endpoint::new(target);
    assert_eq!(endpoint.update_status(), Status::Unknown);
    assert_eq!(endpoint.get_status(), Status::Unknown);
}

#[test]
fn endpoint_keeps_its_target() {
    let endpoint = Endpoint::new(icmp("example.org", ResolvePolicy::Agnostic, Vec::new()));
    assert_eq!(endpoint.get_target().get_id(), "example.org");
    assert_eq!(endpoint.get_target().target.get_fqhn(), "example.org");
}

#[test]
fn endpoint_follows_the_outcomes_of_its_checks() {
    let target = Scripted::new(vec![
        Ok(Status::Available),
        Err(CheckTargetError::from("lost")),
        Ok(Status::NotAvailable),
        Ok(Status::Unknown),
    ]);
    let mut endpoint = Endpoint::new(target);
    assert_eq!(endpoint.update_status(), Status::Available);
    assert_eq!(endpoint.get_status(), Status::Available);
    assert_eq!(endpoint.update_status(), Status::Unknown);
    assert_eq!(endpoint.get_status(), Status::Unknown);
    assert_eq!(endpoint.update_status(), Status::NotAvailable);
    assert_eq!(endpoint.update_status(), Status::Unknown);
    assert_eq!(endpoint.get_status(), Status::Unknown);
    assert_eq!(endpoint.get_target().get_id(), "scripted");
}

#[test]
fn record_reports_the_new_and_the_old_status() {
    let mut endpoint = Endpoint::new(Scripted::new(Vec::new()));

    let report = endpoint.record(Ok(Status::NotAvailable));
    assert_eq!(report.status, Status::NotAvailable);
    assert_eq!(report.old_status, Status::Unknown);
    assert!(report.error.is_none());
    assert_eq!(endpoint.get_status(), Status::NotAvailable);

    let report = endpoint.record(Err(CheckTargetError::from("Error")));
    assert_eq!(report.status, Status::Unknown);
    assert_eq!(report.old_status, Status::NotAvailable);
    assert_eq!(report.error.unwrap().to_string(), "Error");
    assert_eq!(endpoint.get_status(), Status::Unknown);

    let report = endpoint.record(Ok(Status::Available));
    assert_eq!(report.status, Status::Available);
    assert_eq!(report.old_status, Status::Unknown);
    assert!(report.error.is_none());
    assert_eq!(endpoint.get_status(), Status::Available);
}

/// An ICMP target whose ping cannot be run.
struct Broken {
    target: IcmpTarget,
}

impl Target for Broken {
    fn get_id(&self) -> String {
        self.target.get_id()
    }

    fn check_availability(&self) -> Result<Status, CheckTargetError> {
        self.target.try_check_availability_with(Ok(vec![LOCALHOST_V4]), |_| {
            Err(reachable::GenericCause::new(String::from("ping: not found")))
        })
    }
}

#[test]
fn endpoint_is_unknown_where_the_probe_cannot_be_run() {
    let target = Broken { target: IcmpTarget::new(String::from("127.0.0.1"), ResolvePolicy::Agnostic) };
    let mut endpoint = Endpoint::new(target);
    let outcome = endpoint.get_target().check_availability();
    let report = endpoint.record(outcome);
    assert_eq!(report.status, Status::Unknown);
    assert_eq!(report.old_status, Status::Unknown);
    assert_eq!(
        report.error.unwrap().to_string(),
        "GenericError caused by: ping: not found"
    );
    assert_eq!(endpoint.update_status(), Status::Unknown);
}
