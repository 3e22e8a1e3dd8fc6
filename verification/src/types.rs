//! Types shared across the protocol surface.

use vstd::prelude::*;

use crate::collections::TextMap;

pub mod capability;
pub mod laws;
pub mod node;

verus! {

/// The status of an agent.
#[derive(Clone, Copy, Debug, Eq, PartialEq, Structural)]
pub enum Status {
    Ready,
    Idle,
}

/// The socket address of an agent.
#[derive(Clone, Copy, Debug, Eq, PartialEq)]
pub enum SocketAddr {
    V4([u8; 4], u16),
    V6([u8; 16], u16),
}

/// The octets and the port of a socket address: an IPv4 address is `Ok`, an
/// IPv6 address is `Err`, in the order in which the two are numbered on the
/// wire.
pub type AddrParts = Result<(Seq<u8>, u16), (Seq<u8>, u16)>;

impl View for SocketAddr {
    type V = AddrParts;

    open spec fn view(&self) -> AddrParts {
        match *self {
            SocketAddr::V4(octets, port) => Ok((octets@, port)),
            SocketAddr::V6(octets, port) => Err((octets@, port)),
        }
    }
}

/// The range of package-manifest format versions an agent can decode.
#[derive(Clone, Copy, Debug, Eq, PartialEq, Structural)]
pub struct ManifestFormatRange {
    pub min: u32,
    pub max: u32,
}

/// Digests of the provisioning file, as read by the enforcing daemon.
#[derive(Clone, Debug, Eq, PartialEq)]
pub struct ProvisioningFingerprint {
    pub components: TextMap,
    pub domain: String,
}

impl View for ProvisioningFingerprint {
    type V = (Seq<(Seq<char>, Seq<char>)>, Seq<char>);

    open spec fn view(&self) -> (Seq<(Seq<char>, Seq<char>)>, Seq<char>) {
        (self.components@, self.domain@)
    }
}

/// The health of the registrar's audit store.
#[derive(Clone, Copy, Debug, Eq, PartialEq, Structural)]
pub struct AuditHealth {
    pub below_low_water: bool,
    pub intent_without_outcome: u64,
}

} // verus!
