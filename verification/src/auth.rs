//! Authorization of requests.
//!
//! The policy is supplied from outside: an authorizer is handed the identity
//! of the peer and the identifier of the operation, and answers whether the
//! operation may go ahead.

use vstd::prelude::*;

use crate::service_id::ServiceId;

verus! {

/// The certificate-backed identity of a peer.
#[derive(Clone, Debug, Eq, PartialEq)]
pub struct PeerContext {
    pub identity: String,
}

impl PeerContext {
    /// Creates the context of the peer with the given identity.
    pub fn new(identity: &str) -> (peer: Self)
        ensures
            peer.identity@ == identity@,
    {
        PeerContext { identity: identity.to_owned() }
    }
}

/// The identity of a peer with further authenticated metadata.
#[derive(Clone, Debug, Eq, PartialEq)]
pub struct AuthorizationContext {
    pub identity: String,
    pub agent_kind: Option<String>,
    pub roles: Option<Vec<String>>,
    pub protocol_version: Option<String>,
    pub attributes: Vec<(String, String)>,
}

impl AuthorizationContext {
    /// Creates a context that holds the identity of `peer` and no further
    /// metadata.
    pub fn from_peer_context(peer: &PeerContext) -> (context: Self)
        ensures
            context.identity@ == peer.identity@,
            context.agent_kind is None,
            context.roles is None,
            context.protocol_version is None,
            context.attributes@.len() == 0,
    {
        AuthorizationContext {
            identity: peer.identity.clone(),
            agent_kind: None,
            roles: None,
            protocol_version: None,
            attributes: Vec::new(),
        }
    }
}

/// The refusal of an operation.
#[derive(Clone, Debug, Eq, PartialEq)]
pub struct AuthorizationError {
    pub reason: String,
}

impl AuthorizationError {
    /// Creates a refusal with the given reason.
    pub fn new(reason: &str) -> (e: Self)
        ensures
            e.reason@ == reason@,
    {
        AuthorizationError { reason: reason.to_owned() }
    }

    /// Returns the text of the refusal.
    pub fn message(&self) -> (text: String)
        ensures
            text@ == "authorization denied: "@ + self.reason@,
    {
        let mut text: String = "authorization denied: ".to_owned();
        text.append(self.reason.as_str());
        text
    }
}

/// A policy over peers and operations.
pub trait Authorizer {
    /// Decides whether `peer` may carry out `service`.
    fn authorize(&self, peer: &PeerContext, service: &ServiceId) -> Result<(), AuthorizationError>;
}

/// A policy over richer contexts and operations.
pub trait AuthorizerV2 {
    /// Decides whether `service` may be carried out in `context`.
    fn authorize_with_context(
        &self,
        context: &AuthorizationContext,
        service: &ServiceId,
    ) -> Result<(), AuthorizationError>;
}

/// The context that stands for a peer names the same identity and claims
/// nothing further: no kind, no roles, no version and no attributes.
pub proof fn peer_context_claims_only_its_identity(
    identity: &str,
    peer: PeerContext,
    context: AuthorizationContext,
)
    requires
        call_ensures(PeerContext::new, (identity,), peer),
        call_ensures(AuthorizationContext::from_peer_context, (&peer,), context),
    ensures
        peer.identity@ == identity@,
        context.identity@ == identity@,
        context.agent_kind is None,
        context.roles is None,
        context.protocol_version is None,
        context.attributes@ == Seq::<(String, String)>::empty(),
{
}

/// The text of a refusal ends with its reason.
pub proof fn refusal_says_its_reason(reason: &str, e: AuthorizationError, text: String)
    requires
        call_ensures(AuthorizationError::new, (reason,), e),
        call_ensures(AuthorizationError::message, (&e,), text),
    ensures
        text@ == "authorization denied: "@ + reason@,
{
}

} // verus!
