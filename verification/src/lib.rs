//! Reachability checks for network targets, and the rules by which such checks
//! are repeated on a schedule and reported.
//!
//! A target is anything that can say whether it is currently available. The
//! crate holds the ICMP and TCP targets, the policy that filters the addresses
//! a name resolved to, the state kept between two checks of one target, the
//! rule that decides which checks are reported, the timing of the checks, and
//! the life cycle of an executor that repeats the checks of many targets side
//! by side. The functions state what they return and change, and Verus proves
//! the statements. What is believed and not proved is little and says so where
//! it stands: how the standard library reads and writes a number and makes a
//! duration, and the watch channel of tokio, of which nothing is claimed.
//!
//! The crate does no input or output. Looking a name up, sending an echo
//! request, opening a connection, sleeping and running threads are left to the
//! caller, who hands in what they yielded. What the loops of an executor share
//! is the signal that ends them.

pub mod async_target;
pub mod endpoint;
pub mod endpoint_async;
pub mod error;
pub mod executor;
pub mod resolve_policy;
pub mod schedule;
pub mod signal;
pub mod status;
pub mod target;
pub mod text;

pub use async_target::{check_target, AsyncTarget};
pub use endpoint::{CheckOutcome, CheckReport, Endpoint};
pub use endpoint_async::{EndpointAsync, Exec};
pub use error::{CheckTargetError, ParseTargetError, ResolveTargetError};
pub use error::{ErrorMessage, GenericCause, IoCause, ParseIntCause};
pub use executor::{LoopAction, LoopEvent, LoopPhase, ProbeLoop};
pub use executor::{Scheduler, StartDecision, StopDecision};
pub use resolve_policy::{IpAddress, ResolvePolicy};
pub use schedule::pause_after;
pub use signal::{seen_raised, StopSignal};
pub use status::{OldStatus, Status};
pub use target::{default_tcp_connect_timeout, sweep, try_sweep};
pub use target::{Fqhn, IcmpTarget, Port, Target, TcpTarget};
