//! Targets: what can be checked for availability.

use crate::error::CheckTargetError;
use crate::error::GenericCause;
use crate::error::IoCause;
use crate::error::ParseTargetError;
use crate::resolve_policy::lookup_view;
use crate::resolve_policy::IpAddress;
use crate::resolve_policy::ResolvePolicy;
pub use crate::status::Status;
use crate::text::find_last_colon;
use crate::text::host_and_port;
use crate::text::host_and_port_read_back;
use crate::text::join_host_and_port;
use crate::text::last_colon;
use crate::text::last_colon_is_last;
use crate::text::parse_port;
use crate::text::port_fault;
use crate::text::port_value;
use std::time::Duration;
use vstd::prelude::*;

verus! {

/// A fully qualified host name, or an address written as text.
pub type Fqhn = String;

/// The number of a port.
pub type Port = u16;

/// Something that can be checked for availability.
pub trait Target {
    /// The identifier of the target.
    fn get_id(&self) -> String;

    /// Checks whether the target is currently available.
    ///
    /// The call may block for as long as the check takes. It returns the
    /// status of the target, or an error where the check itself failed.
    fn check_availability(&self) -> Result<Status, CheckTargetError>;
}

/// What a check that tried `addresses` in their order with `probe` may have
/// found. `Available`: `probe` reported one address reachable, and every
/// address before it unreachable. `NotAvailable`: `probe` reported every
/// address unreachable. `Unknown` is never found.
pub open spec fn found_by<P: FnMut(IpAddress) -> bool>(
    probe: P,
    addresses: Seq<IpAddress>,
    status: Status,
) -> bool {
    match status {
        Status::Available => exists|i: int|
            0 <= i < addresses.len() && #[trigger] call_ensures(probe, (addresses[i],), true)
                && forall|j: int|
                0 <= j < i ==> #[trigger] call_ensures(probe, (addresses[j],), false),
        Status::NotAvailable => forall|j: int|
            0 <= j < addresses.len() ==> #[trigger] call_ensures(probe, (addresses[j],), false),
        Status::Unknown => false,
    }
}

/// Tries the addresses in their order until `probe` reports one reachable.
///
/// The target is available if `probe` reports an address reachable; the
/// addresses after that one are not tried. It is not available if `probe`
/// reports every address unreachable.
pub fn sweep<P: FnMut(IpAddress) -> bool>(addresses: &Vec<IpAddress>, probe: P) -> (r: Status)
    requires
        forall|address: IpAddress| call_requires(probe, (address,)),
    ensures
        found_by(probe, addresses@, r),
{
    let mut prober = probe;
    let mut i: usize = 0;
    while i < addresses.len()
        invariant
            i <= addresses.len(),
            prober == probe,
            forall|address: IpAddress| call_requires(probe, (address,)),
            forall|j: int| 0 <= j < i ==> #[trigger] call_ensures(probe, (addresses@[j],), false),
        decreases addresses.len() - i,
    {
        let reachable = prober(addresses[i]);
        if reachable {
            return Status::Available;
        }
        i = i + 1;
    }
    Status::NotAvailable
}

/// What checking a target yields, given the policy of the target, what
/// looking its name up has yielded, and the function that probes one address:
/// the error of resolving where resolving fails, else a status that `probe`
/// has found on the admitted addresses.
pub open spec fn checked_by<P: FnMut(IpAddress) -> bool>(
    policy: ResolvePolicy,
    lookup: Result<Seq<IpAddress>, IoCause>,
    probe: P,
    outcome: Result<Status, CheckTargetError>,
) -> bool {
    match policy.resolved(lookup) {
        Err(error) => outcome == Err::<Status, CheckTargetError>(
            CheckTargetError::ResolveTargetError("ResolveTargetError", error),
        ),
        Ok(addresses) => outcome is Ok && found_by(probe, addresses, outcome.unwrap()),
    }
}

/// Checks a target: resolves under `policy` what the lookup has yielded, and
/// tries the admitted addresses with `probe`.
pub fn check_addresses<P: FnMut(IpAddress) -> bool>(
    policy: &ResolvePolicy,
    lookup: Result<Vec<IpAddress>, IoCause>,
    probe: P,
) -> (r: Result<Status, CheckTargetError>)
    requires
        forall|address: IpAddress| call_requires(probe, (address,)),
    ensures
        checked_by(*policy, lookup_view(lookup), probe, r),
{
    match policy.resolve(lookup) {
        Err(error) => Err(CheckTargetError::from(error)),
        Ok(addresses) => Ok(sweep(&addresses, probe)),
    }
}

/// What a check that tried `addresses` in their order with a probe that may
/// fail may have come to.
///
/// `Available`: the probe reported one address reachable. `NotAvailable`: it
/// reported every address unreachable. An error: the probe failed on one
/// address, and the error holds the cause of that failure under the message
/// `GenericError`. In each case the probe reported every address before that
/// one unreachable. `Unknown` is never found.
pub open spec fn tried_by<P: FnMut(IpAddress) -> Result<bool, GenericCause>>(
    probe: P,
    addresses: Seq<IpAddress>,
    outcome: Result<Status, CheckTargetError>,
) -> bool {
    match outcome {
        Ok(Status::Available) => exists|i: int|
            decided_at(probe, addresses, i, Ok::<bool, GenericCause>(true)),
        Ok(Status::NotAvailable) => all_unreachable_before(
            probe,
            addresses,
            addresses.len() as int,
        ),
        Ok(Status::Unknown) => false,
        Err(error) => exists|i: int, cause: GenericCause|
            decided_at(probe, addresses, i, Err::<bool, GenericCause>(cause)) && error
                == CheckTargetError::GenericError("GenericError", cause),
    }
}

/// Whether a probe that may fail gave `answer` on the address at place `i`,
/// after it had reported every address before that one unreachable.
pub open spec fn decided_at<P: FnMut(IpAddress) -> Result<bool, GenericCause>>(
    probe: P,
    addresses: Seq<IpAddress>,
    i: int,
    answer: Result<bool, GenericCause>,
) -> bool {
    &&& 0 <= i < addresses.len()
    &&& call_ensures(probe, (addresses[i],), answer)
    &&& all_unreachable_before(probe, addresses, i)
}

/// Whether a probe that may fail reported each of the first `end` addresses
/// unreachable.
pub open spec fn all_unreachable_before<P: FnMut(IpAddress) -> Result<bool, GenericCause>>(
    probe: P,
    addresses: Seq<IpAddress>,
    end: int,
) -> bool {
    forall|j: int|
        0 <= j < end ==> #[trigger] call_ensures(
            probe,
            (addresses[j],),
            Ok::<bool, GenericCause>(false),
        )
}

/// Tries the addresses in their order with a probe that may fail, until the
/// probe reports one reachable or fails.
///
/// The target is available if the probe reports an address reachable, and not
/// available if it reports every address unreachable. A probe that fails ends
/// the check in an error that holds the cause of the failure. The addresses
/// after the one that decided are not tried.
pub fn try_sweep<P: FnMut(IpAddress) -> Result<bool, GenericCause>>(
    addresses: &Vec<IpAddress>,
    probe: P,
) -> (r: Result<Status, CheckTargetError>)
    requires
        forall|address: IpAddress| call_requires(probe, (address,)),
    ensures
        tried_by(probe, addresses@, r),
{
    let mut prober = probe;
    let mut i: usize = 0;
    while i < addresses.len()
        invariant
            i <= addresses.len(),
            prober == probe,
            forall|address: IpAddress| call_requires(probe, (address,)),
            all_unreachable_before(probe, addresses@, i as int),
        decreases addresses.len() - i,
    {
        let answer = prober(addresses[i]);
        proof {
            assert(decided_at(probe, addresses@, i as int, answer));
        }
        match answer {
            Ok(reachable) => {
                if reachable {
                    return Ok(Status::Available);
                }
            },
            Err(cause) => {
                return Err(CheckTargetError::from(cause));
            },
        }
        i = i + 1;
    }
    Ok(Status::NotAvailable)
}

/// What checking a target with a probe that may fail yields: the error of
/// resolving where resolving fails, else what the probe has come to on the
/// admitted addresses.
pub open spec fn try_checked_by<P: FnMut(IpAddress) -> Result<bool, GenericCause>>(
    policy: ResolvePolicy,
    lookup: Result<Seq<IpAddress>, IoCause>,
    probe: P,
    outcome: Result<Status, CheckTargetError>,
) -> bool {
    match policy.resolved(lookup) {
        Err(error) => outcome == Err::<Status, CheckTargetError>(
            CheckTargetError::ResolveTargetError("ResolveTargetError", error),
        ),
        Ok(addresses) => tried_by(probe, addresses, outcome),
    }
}

/// Checks a target with a probe that may fail: resolves under `policy` what
/// the lookup has yielded, and tries the admitted addresses with `probe`.
pub fn try_check_addresses<P: FnMut(IpAddress) -> Result<bool, GenericCause>>(
    policy: &ResolvePolicy,
    lookup: Result<Vec<IpAddress>, IoCause>,
    probe: P,
) -> (r: Result<Status, CheckTargetError>)
    requires
        forall|address: IpAddress| call_requires(probe, (address,)),
    ensures
        try_checked_by(*policy, lookup_view(lookup), probe, r),
{
    match policy.resolve(lookup) {
        Err(error) => Err(CheckTargetError::from(error)),
        Ok(addresses) => try_sweep(&addresses, probe),
    }
}

/// A target that is checked by sending it an echo request.
#[derive(Debug)]
pub struct IcmpTarget {
    fqhn: Fqhn,
    resolve_policy: ResolvePolicy,
}

/// What an `IcmpTarget` holds.
pub struct IcmpTargetView {
    /// The name of the system to reach.
    pub fqhn: Seq<char>,
    /// The policy applied to the addresses that the name resolves to.
    pub resolve_policy: ResolvePolicy,
}

impl View for IcmpTarget {
    type V = IcmpTargetView;

    closed spec fn view(&self) -> IcmpTargetView {
        IcmpTargetView { fqhn: self.fqhn@, resolve_policy: self.resolve_policy }
    }
}

impl IcmpTarget {
    /// A target for the system named `fqhn`, resolved under `resolve_policy`.
    pub fn new(fqhn: Fqhn, resolve_policy: ResolvePolicy) -> (r: IcmpTarget)
        ensures
            r@ == (IcmpTargetView { fqhn: fqhn@, resolve_policy }),
    {
        IcmpTarget { fqhn, resolve_policy }
    }

    /// The same target with another policy.
    pub fn set_resolve_policy(self, resolve_policy: ResolvePolicy) -> (r: IcmpTarget)
        ensures
            r@ == (IcmpTargetView { fqhn: self@.fqhn, resolve_policy }),
    {
        IcmpTarget { fqhn: self.fqhn, resolve_policy }
    }

    /// The name of the system to reach.
    pub fn get_fqhn(&self) -> (r: &Fqhn)
        ensures
            r@ == self@.fqhn,
    {
        &self.fqhn
    }

    /// The policy in use.
    pub fn get_resolve_policy(&self) -> (r: &ResolvePolicy)
        ensures
            *r == self@.resolve_policy,
    {
        &self.resolve_policy
    }

    /// The identifier of the target: its name.
    pub fn get_id(&self) -> (r: String)
        ensures
            r@ == self@.fqhn,
    {
        self.fqhn.clone()
    }

    /// The options with which the `ping` command is run on an address: one
    /// request is sent, and an address of version 6 asks for that version.
    pub open spec fn ping_options_for(address: IpAddress) -> Seq<Seq<char>> {
        if address is V6 {
            seq!["-c 1"@, "-6"@]
        } else {
            seq!["-c 1"@]
        }
    }

    /// The options with which the `ping` command is run on `address`; the
    /// address itself follows them.
    pub fn ping_options(address: &IpAddress) -> (r: Vec<&'static str>)
        ensures
            r@.map_values(|option: &'static str| option@) == Self::ping_options_for(*address),
    {
        let mut options: Vec<&'static str> = Vec::new();
        options.push("-c 1");
        if address.is_ipv6() {
            options.push("-6");
        }
        options
    }

    /// Checks whether the target is available.
    ///
    /// `lookup` is what looking the target's name up has yielded, and
    /// `ping` says whether one address answers. A failed lookup, or one with
    /// no address that the policy admits, ends in an error. Otherwise the
    /// admitted addresses are tried in their order: the target is available
    /// as soon as one answers, and not available if none does.
    pub fn check_availability_with<P: FnMut(IpAddress) -> bool>(
        &self,
        lookup: Result<Vec<IpAddress>, IoCause>,
        ping: P,
    ) -> (r: Result<Status, CheckTargetError>)
        requires
            forall|address: IpAddress| call_requires(ping, (address,)),
        ensures
            checked_by(self@.resolve_policy, lookup_view(lookup), ping, r),
    {
        check_addresses(&self.resolve_policy, lookup, ping)
    }

    /// Checks whether the target is available, with a function that may fail
    /// to send the echo request.
    ///
    /// As `check_availability_with`, but `ping` may fail on an address: the
    /// check then ends in an error that holds the cause of the failure, and
    /// the addresses after that one are not tried.
    pub fn try_check_availability_with<P: FnMut(IpAddress) -> Result<bool, GenericCause>>(
        &self,
        lookup: Result<Vec<IpAddress>, IoCause>,
        ping: P,
    ) -> (r: Result<Status, CheckTargetError>)
        requires
            forall|address: IpAddress| call_requires(ping, (address,)),
        ensures
            try_checked_by(self@.resolve_policy, lookup_view(lookup), ping, r),
    {
        try_check_addresses(&self.resolve_policy, lookup, ping)
    }

    /// Whether `r` is what parsing `text` yields: an error for an empty text,
    /// else the target with that name and the policy `Agnostic`.
    pub open spec fn parsed(text: Seq<char>, r: Result<IcmpTarget, ParseTargetError>) -> bool {
        if text.len() == 0 {
            r == Err::<IcmpTarget, ParseTargetError>(ParseTargetError::Message("No FQHN found"))
        } else {
            r is Ok && r.unwrap()@ == (IcmpTargetView {
                fqhn: text,
                resolve_policy: ResolvePolicy::Agnostic,
            })
        }
    }

    /// Parses a target from the name of a system. The name may not be empty;
    /// the policy of the target is `Agnostic`.
    pub fn from_str(s: &str) -> (r: Result<IcmpTarget, ParseTargetError>)
        ensures
            Self::parsed(s@, r),
    {
        if s.is_empty() {
            Err(ParseTargetError::from("No FQHN found"))
        } else {
            Ok(IcmpTarget::new(String::from_str(s), ResolvePolicy::Agnostic))
        }
    }
}

impl std::str::FromStr for IcmpTarget {
    type Err = ParseTargetError;

    /// Parses a target as `IcmpTarget::from_str` does.
    fn from_str(s: &str) -> (r: Result<IcmpTarget, ParseTargetError>)
        ensures
            Self::parsed(s@, r),
    {
        IcmpTarget::from_str(s)
    }
}

/// The seconds after which an attempt of a `TcpTarget` to connect is given up,
/// unless the target is told otherwise.
pub const DEFAULT_TCP_CONNECT_TIMEOUT_SECS: u64 = 5;

/// The duration that `Duration::from_secs` makes of a number of seconds.
pub uninterp spec fn duration_of_secs(secs: u64) -> Duration;

/// `Duration::from_secs` of the standard library: the duration of `secs` whole
/// seconds. The same number of seconds gives the same duration.
pub assume_specification[ Duration::from_secs ](secs: u64) -> (r: Duration)
    ensures
        r == duration_of_secs(secs),
;

/// The time after which an attempt of a `TcpTarget` to connect is given up,
/// unless the target is told otherwise.
pub fn default_tcp_connect_timeout() -> (r: Duration)
    ensures
        r == duration_of_secs(DEFAULT_TCP_CONNECT_TIMEOUT_SECS),
{
    Duration::from_secs(DEFAULT_TCP_CONNECT_TIMEOUT_SECS)
}

/// A target that is checked by opening a TCP connection to it.
#[derive(Debug)]
pub struct TcpTarget {
    fqhn: Fqhn,
    port: Port,
    connect_timeout: Duration,
    resolve_policy: ResolvePolicy,
}

/// What a `TcpTarget` holds.
pub struct TcpTargetView {
    /// The name of the system to connect to.
    pub fqhn: Seq<char>,
    /// The port to connect to.
    pub port: Port,
    /// The time after which an attempt to connect is given up.
    pub connect_timeout: Duration,
    /// The policy applied to the addresses that the name resolves to.
    pub resolve_policy: ResolvePolicy,
}

impl View for TcpTarget {
    type V = TcpTargetView;

    closed spec fn view(&self) -> TcpTargetView {
        TcpTargetView {
            fqhn: self.fqhn@,
            port: self.port,
            connect_timeout: self.connect_timeout,
            resolve_policy: self.resolve_policy,
        }
    }
}

impl TcpTarget {
    /// A target for the port `port` of the system named `fqhn`.
    pub fn new(
        fqhn: Fqhn,
        port: Port,
        connect_timeout: Duration,
        resolve_policy: ResolvePolicy,
    ) -> (r: TcpTarget)
        ensures
            r@ == (TcpTargetView { fqhn: fqhn@, port, connect_timeout, resolve_policy }),
    {
        TcpTarget { fqhn, port, connect_timeout, resolve_policy }
    }

    /// The same target with another policy.
    pub fn set_resolve_policy(self, resolve_policy: ResolvePolicy) -> (r: TcpTarget)
        ensures
            r@ == (TcpTargetView { resolve_policy, ..self@ }),
    {
        TcpTarget {
            fqhn: self.fqhn,
            port: self.port,
            connect_timeout: self.connect_timeout,
            resolve_policy,
        }
    }

    /// The same target with another time after which an attempt to connect is
    /// given up.
    pub fn set_connect_timeout(self, connect_timeout: Duration) -> (r: TcpTarget)
        ensures
            r@ == (TcpTargetView { connect_timeout, ..self@ }),
    {
        TcpTarget {
            fqhn: self.fqhn,
            port: self.port,
            connect_timeout,
            resolve_policy: self.resolve_policy,
        }
    }

    /// The name of the system to connect to.
    pub fn get_fqhn(&self) -> (r: &Fqhn)
        ensures
            r@ == self@.fqhn,
    {
        &self.fqhn
    }

    /// The port to connect to.
    pub fn get_portnumber(&self) -> (r: &Port)
        ensures
            *r == self@.port,
    {
        &self.port
    }

    /// The time after which an attempt to connect is given up.
    pub fn get_connect_timeout(&self) -> (r: &Duration)
        ensures
            *r == self@.connect_timeout,
    {
        &self.connect_timeout
    }

    /// The policy in use.
    pub fn get_resolve_policy(&self) -> (r: &ResolvePolicy)
        ensures
            *r == self@.resolve_policy,
    {
        &self.resolve_policy
    }

    /// Checks whether the target is available.
    ///
    /// `lookup` is what looking the target's name up has yielded, and
    /// `connect` says whether a connection to the target's port at one
    /// address can be opened. A failed lookup, or one with no address that the
    /// policy admits, ends in an error. Otherwise the admitted addresses are
    /// tried in their order: the target is available as soon as one accepts
    /// the connection, and not available if none does.
    pub fn check_availability_with<P: FnMut(IpAddress) -> bool>(
        &self,
        lookup: Result<Vec<IpAddress>, IoCause>,
        connect: P,
    ) -> (r: Result<Status, CheckTargetError>)
        requires
            forall|address: IpAddress| call_requires(connect, (address,)),
        ensures
            checked_by(self@.resolve_policy, lookup_view(lookup), connect, r),
    {
        check_addresses(&self.resolve_policy, lookup, connect)
    }

    /// Checks whether the target is available, with a function that may fail
    /// to try a connection.
    ///
    /// As `check_availability_with`, but `connect` may fail on an address:
    /// the check then ends in an error that holds the cause of the failure,
    /// and the addresses after that one are not tried.
    pub fn try_check_availability_with<P: FnMut(IpAddress) -> Result<bool, GenericCause>>(
        &self,
        lookup: Result<Vec<IpAddress>, IoCause>,
        connect: P,
    ) -> (r: Result<Status, CheckTargetError>)
        requires
            forall|address: IpAddress| call_requires(connect, (address,)),
        ensures
            try_checked_by(self@.resolve_policy, lookup_view(lookup), connect, r),
    {
        try_check_addresses(&self.resolve_policy, lookup, connect)
    }

    /// The identifier of the target: its name, a colon, and its port.
    pub fn get_id(&self) -> (r: String)
        ensures
            r@ == host_and_port(self@.fqhn, self@.port),
    {
        join_host_and_port(self.fqhn.as_str(), self.port)
    }

    /// Whether `r` is what parsing `text` yields.
    ///
    /// A text without a colon is an error, and so is one with nothing before
    /// its last colon. What stands after the last colon is read as a port: a
    /// text that is no port is an error that holds what the standard library
    /// says of it, and the port zero is an error as well. Any other text
    /// yields the target with the name before the colon, that port, the
    /// default time to connect and the policy `Agnostic`.
    pub open spec fn parsed(text: Seq<char>, r: Result<TcpTarget, ParseTargetError>) -> bool {
        match last_colon(text) {
            None => r == Err::<TcpTarget, ParseTargetError>(
                ParseTargetError::Message("Missing ':' between host and port"),
            ),
            Some(colon) => {
                let host = text.subrange(0, colon);
                let port_text = text.subrange(colon + 1, text.len() as int);
                if host.len() == 0 {
                    r == Err::<TcpTarget, ParseTargetError>(
                        ParseTargetError::Message("No FQHN found"),
                    )
                } else {
                    match port_value(port_text) {
                        None => r matches Err(ParseTargetError::ParseIntError(message, cause))
                            && message == "Failed to parse Portnumber" && cause@ == port_fault(
                            port_text,
                        ),
                        Some(port) => if port == 0 {
                            r == Err::<TcpTarget, ParseTargetError>(
                                ParseTargetError::Message("Invalid Portnumber '0' found"),
                            )
                        } else {
                            r is Ok && r.unwrap()@ == (TcpTargetView {
                                fqhn: host,
                                port,
                                connect_timeout: duration_of_secs(
                                    DEFAULT_TCP_CONNECT_TIMEOUT_SECS,
                                ),
                                resolve_policy: ResolvePolicy::Agnostic,
                            })
                        },
                    }
                }
            },
        }
    }

    /// Parses a target from a text of the form `host:port`.
    ///
    /// The text is split at its last colon. What stands before the colon is
    /// the name of the system and may not be empty. What stands after it is
    /// the port, a number from 1 to 65535. The target gets the default time
    /// to connect and the policy `Agnostic`.
    pub fn from_str(s: &str) -> (r: Result<TcpTarget, ParseTargetError>)
        ensures
            Self::parsed(s@, r),
    {
        match find_last_colon(s) {
            None => Err(ParseTargetError::from("Missing ':' between host and port")),
            Some(colon) => {
                let length = s.unicode_len();
                proof {
                    last_colon_is_last(s@);
                }
                let host = s.substring_char(0, colon);
                if host.is_empty() {
                    return Err(ParseTargetError::from("No FQHN found"));
                }
                match parse_port(s.substring_char(colon + 1, length)) {
                    Ok(port) => {
                        if port == 0 {
                            Err(ParseTargetError::from("Invalid Portnumber '0' found"))
                        } else {
                            Ok(
                                TcpTarget::new(
                                    String::from_str(host),
                                    port,
                                    default_tcp_connect_timeout(),
                                    ResolvePolicy::Agnostic,
                                ),
                            )
                        }
                    },
                    Err(cause) => Err(
                        ParseTargetError::from(("Failed to parse Portnumber", cause)),
                    ),
                }
            },
        }
    }
}

impl std::str::FromStr for TcpTarget {
    type Err = ParseTargetError;

    /// Parses a target as `TcpTarget::from_str` does.
    fn from_str(s: &str) -> (r: Result<TcpTarget, ParseTargetError>)
        ensures
            Self::parsed(s@, r),
    {
        TcpTarget::from_str(s)
    }
}

/// A target is parsed back from its identifier: the identifier of a target
/// with a name and a port other than zero is parsed into a target with that
/// name and that port, whatever the name holds.
pub proof fn identifier_parses_back(
    fqhn: Seq<char>,
    port: Port,
    r: Result<TcpTarget, ParseTargetError>,
)
    requires
        fqhn.len() > 0,
        port != 0,
        TcpTarget::parsed(host_and_port(fqhn, port), r),
    ensures
        r is Ok,
        r.unwrap()@ == (TcpTargetView {
            fqhn,
            port,
            connect_timeout: duration_of_secs(DEFAULT_TCP_CONNECT_TIMEOUT_SECS),
            resolve_policy: ResolvePolicy::Agnostic,
        }),
{
    host_and_port_read_back(fqhn, port);
}

} // verus!
