//! Discovery of the caller's public IP address through DNS echo services.
//!
//! The library holds the provider table, the interpretation of DNS answers
//! and the fallback engine that walks the providers; the DNS exchange itself
//! is performed by the caller, who feeds each outcome back to the engine.
use vstd::prelude::*;

pub mod addr;
pub mod answer;
pub mod catalog;
pub mod engine;
pub mod error;

pub use addr::{IpAddr, Ipv4Addr, Ipv6Addr};
pub use answer::{parse_answer, QueryMethod, RecordData};



pub use catalog::{all, Attempt, QueryClass, Resolver};
pub use engine::{resolve, Resolution};
pub use error::Error;

verus! {

/// The version of IP address to resolve.
#[derive(Debug, Copy, Clone, PartialEq, Eq, Hash)]
pub enum AddrVersion {
    /// IPv4.
    V4,
    /// IPv6.
    V6,
    /// Any version of IP address.
    Any,
}

impl AddrVersion {
    /// Whether `addr` is of the family that `self` asks for.
    pub open spec fn accepts(self, addr: IpAddr) -> bool {
        match self {
            AddrVersion::Any => true,
            AddrVersion::V4 => addr is V4,
            AddrVersion::V6 => addr is V6,
        }
    }

    /// Returns `true` if the provided IP address's version matches `self`.
    pub fn matches(self, addr: IpAddr) -> (r: bool)
        ensures
            r == self.accepts(addr),
    {
        match self {
            AddrVersion::Any => true,
            AddrVersion::V4 => addr.is_ipv4(),
            AddrVersion::V6 => addr.is_ipv6(),
        }
    }
}

} // verus!
