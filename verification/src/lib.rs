//! # review-protocol
//!
//! The wire and API rules of the review protocol, between a manager and the
//! agents that it manages. Everything here is computation: what the bytes of
//! a frame mean, which handler a request goes to, which frame is sent next,
//! and when an exchange is over. Whoever holds the transport carries out what
//! these rules decide.
//!
//! - [`agent_info`]: the agent information frame with its conditional tail.
//! - [`handshake`]: the window of protocol versions that a manager admits.
//! - [`client`]: the request codes.
//! - [`request`]: the agent's side, which is the dispatch of requests and the
//!   bounded reader of package payloads.
//! - [`server`]: the manager's side, which is the node API and the install
//!   exchange.
//! - [`auth`] and [`service_id`]: authorization, keyed by the operation.
//!
//! An operation of the node API is refused or planned before anything is
//! sent. The dispatch and the install exchange are state machines: each step
//! takes the state and what just happened, and returns the next state with
//! what is to be done.
//!
//! ## Capabilities
//!
//! The capability set of an agent is carried and never inspected. A manager
//! reads it and decides for itself which agents it sends a request to. An
//! agent that is sent a request it does not serve fails closed: a number that
//! is not assigned is answered with `unknown request code`, and a family that
//! is dispatched but not implemented with `not supported`.

use vstd::prelude::*;

pub mod agent_info;
pub mod auth;
pub mod client;
pub mod codec;
pub mod collections;
pub mod handshake;
pub mod protocol_error;
pub mod request;
pub mod server;
pub mod service_id;
pub mod text;
pub mod types;

pub use self::agent_info::AgentInfo;
pub use self::handshake::HandshakeError;
pub use self::protocol_error::ProtocolErrorKind;

verus! {

/// The wire protocol version that this surface implements.
///
/// This is the version of the protocol, which is unrelated to the version of
/// this crate.
pub const PROTOCOL_VERSION: &'static str = "0.49.0";

/// The requirement that a manager enforces on the protocol version of an
/// agent if it intends to send package and enrollment requests.
pub const MIN_PROTOCOL_VERSION_REQ: &'static str = ">=0.49.0";

/// An agent that is sent package and enrollment requests has at least the
/// version that brought them.
pub proof fn required_version_is_the_implemented_one()
    ensures
        MIN_PROTOCOL_VERSION_REQ@ == ">="@ + PROTOCOL_VERSION@,
        PROTOCOL_VERSION@ == "0.49.0"@,
{
    reveal_strlit(">=");
    reveal_strlit("0.49.0");
    reveal_strlit(">=0.49.0");
    assert(MIN_PROTOCOL_VERSION_REQ@ =~= ">="@ + PROTOCOL_VERSION@);
}

} // verus!
