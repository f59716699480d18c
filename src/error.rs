//! The errors of a resolution.
use vstd::prelude::*;

verus! {

/// hickory's `ProtoError`, the DNS client's protocol and transport error:
/// declared so that `Error::Dns` can carry it; nothing is read from it.
#[verifier::external_type_specification]
#[verifier::external_body]
pub struct ExProtoError(hickory_client::proto::ProtoError);

/// An error produced while attempting to resolve.
#[derive(Debug)]
pub enum Error {
    /// No or invalid IP address string found.
    Addr,
    /// IP version not requested was returned.
    Version,
    /// DNS resolver error.
    Dns(hickory_client::proto::ProtoError),
}

} // verus!
