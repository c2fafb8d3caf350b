//! The addresses that a name resolves to, and the policy that says which of
//! them a target may use.

use crate::error::IoCause;
use crate::error::ResolveTargetError;
use vstd::prelude::*;

verus! {

/// An address of the Internet Protocol, held as its number.
#[derive(Clone, Copy, Debug, PartialEq, Eq, Structural)]
pub enum IpAddress {
    /// An address of version 4, as its 32 bits.
    V4(u32),
    /// An address of version 6, as its 128 bits.
    V6(u128),
}

impl IpAddress {
    /// Whether the address is of version 4.
    pub fn is_ipv4(&self) -> (r: bool)
        ensures
            r == (*self is V4),
    {
        match self {
            IpAddress::V4(_) => true,
            IpAddress::V6(_) => false,
        }
    }

    /// Whether the address is of version 6.
    pub fn is_ipv6(&self) -> (r: bool)
        ensures
            r == (*self is V6),
    {
        match self {
            IpAddress::V4(_) => false,
            IpAddress::V6(_) => true,
        }
    }
}

/// Controls which of the addresses that a name resolved to are used.
#[derive(Clone, Copy, Debug, PartialEq, Eq, Structural)]
pub enum ResolvePolicy {
    /// Use the addresses of every version.
    Agnostic,
    /// Use the addresses of version 4 only.
    ResolveToIPv4,
    /// Use the addresses of version 6 only.
    ResolveToIPv6,
}

impl ResolvePolicy {
    /// Whether the policy lets a target use the address.
    pub open spec fn admits(self, address: IpAddress) -> bool {
        match self {
            ResolvePolicy::Agnostic => true,
            ResolvePolicy::ResolveToIPv4 => address is V4,
            ResolvePolicy::ResolveToIPv6 => address is V6,
        }
    }

    /// The addresses among `addresses` that the policy admits, in their order.
    pub open spec fn admitted(self, addresses: Seq<IpAddress>) -> Seq<IpAddress> {
        addresses.filter(|address: IpAddress| self.admits(address))
    }

    /// What resolving a name yields under the policy, given what looking the
    /// name up has yielded: the failure of the lookup, an error where the
    /// policy admits none of the addresses, else the admitted addresses.
    pub open spec fn resolved(self, lookup: Result<Seq<IpAddress>, IoCause>) -> Result<
        Seq<IpAddress>,
        ResolveTargetError,
    > {
        match lookup {
            Err(cause) => Err(ResolveTargetError::IoError("IoError", cause)),
            Ok(addresses) => if self.admitted(addresses).len() == 0 {
                Err(ResolveTargetError::Message("Given Policy filtered all resolved addresses"))
            } else {
                Ok(self.admitted(addresses))
            },
        }
    }

    /// Whether the policy lets a target use the address.
    pub fn accepts(&self, address: &IpAddress) -> (r: bool)
        ensures
            r == self.admits(*address),
    {
        match self {
            ResolvePolicy::Agnostic => true,
            ResolvePolicy::ResolveToIPv4 => address.is_ipv4(),
            ResolvePolicy::ResolveToIPv6 => address.is_ipv6(),
        }
    }

    /// Turns the outcome of looking a name up into the addresses that a target
    /// may use.
    ///
    /// A failed lookup becomes an `IoError`. Of the addresses found, those that
    /// the policy admits are returned in the order in which they were found; if
    /// the policy admits none, the result is an error that says so.
    pub fn resolve(&self, lookup: Result<Vec<IpAddress>, IoCause>) -> (r: Result<
        Vec<IpAddress>,
        ResolveTargetError,
    >)
        ensures
            match self.resolved(lookup_view(lookup)) {
                Err(error) => r == Err::<Vec<IpAddress>, ResolveTargetError>(error),
                Ok(addresses) => r is Ok && r.unwrap()@ == addresses,
            },
    {
        match lookup {
            Err(cause) => Err(ResolveTargetError::from(cause)),
            Ok(addresses) => {
                let mut kept: Vec<IpAddress> = Vec::new();
                let mut i: usize = 0;
                while i < addresses.len()
                    invariant
                        i <= addresses.len(),
                        kept@ == self.admitted(addresses@.take(i as int)),
                    decreases addresses.len() - i,
                {
                    proof {
                        reveal(Seq::filter);
                        assert(addresses@.take(i + 1).drop_last() == addresses@.take(i as int));
                    }
                    if self.accepts(&addresses[i]) {
                        kept.push(addresses[i]);
                    }
                    i = i + 1;
                }
                proof {
                    assert(addresses@.take(i as int) == addresses@);
                }
                if kept.is_empty() {
                    Err(ResolveTargetError::from("Given Policy filtered all resolved addresses"))
                } else {
                    Ok(kept)
                }
            },
        }
    }
}

/// The outcome of a lookup with the addresses as a sequence.
pub open spec fn lookup_view(lookup: Result<Vec<IpAddress>, IoCause>) -> Result<
    Seq<IpAddress>,
    IoCause,
> {
    match lookup {
        Ok(addresses) => Ok(addresses@),
        Err(cause) => Err(cause),
    }
}

} // verus!
