//! Request handling for the agent.

use vstd::prelude::*;

use crate::protocol_error::{IoError, ProtocolErrorKind};
use crate::types::node::NodePowerRequest;

pub mod dispatch;
pub mod fallback;
pub mod laws;
pub mod package;

pub use self::package::{truncated_payload, NextChunk, PackageReader};

verus! {

use crate::protocol_error::category;

/// Why the handling of requests ended.
#[derive(Clone, Debug, Eq, PartialEq)]
pub enum HandlerError {
    /// A request could not be received.
    RecvError(IoError),
    /// A response could not be sent.
    SendError(IoError),
}

impl HandlerError {
    /// Returns the semantic category of the error. A failure to send is a
    /// transport-level issue and never carries one of its own.
    #[must_use]
    pub fn kind(&self) -> (kind: ProtocolErrorKind)
        ensures
            kind == match *self {
                HandlerError::RecvError(e) => category(e),
                HandlerError::SendError(_) => ProtocolErrorKind::Other,
            },
    {
        match self {
            HandlerError::RecvError(e) => ProtocolErrorKind::of_io_error(e),
            HandlerError::SendError(_) => ProtocolErrorKind::Other,
        }
    }

    /// Returns the text of the error.
    pub fn message(&self) -> (text: String)
        ensures
            text@ == match *self {
                HandlerError::RecvError(_) => "failed to receive request"@,
                HandlerError::SendError(_) => "failed to send response"@,
            },
    {
        match self {
            HandlerError::RecvError(_) => "failed to receive request".to_owned(),
            HandlerError::SendError(_) => "failed to send response".to_owned(),
        }
    }
}

/// Whether a power request is answered. Immediate operations are not, as the
/// agent may close the connection while it carries them out.
pub open spec fn expects_response(req: NodePowerRequest) -> bool {
    req == NodePowerRequest::GracefulReboot || req == NodePowerRequest::GracefulShutdown
}

/// Returns whether a power request is answered.
pub fn node_power_expects_response(req: &NodePowerRequest) -> (r: bool)
    ensures
        r == expects_response(*req),
{
    matches!(req, NodePowerRequest::GracefulReboot | NodePowerRequest::GracefulShutdown)
}

/// A receive that failed has the category of its cause, which is that of
/// invalid arguments only if the cause is classified so. A send that failed
/// has none of its own. Each says which of the two it is.
pub proof fn only_receives_carry_a_category(
    e: IoError,
    received: ProtocolErrorKind,
    sent: ProtocolErrorKind,
    receive_text: String,
    send_text: String,
)
    requires
        call_ensures(HandlerError::kind, (&HandlerError::RecvError(e),), received),
        call_ensures(HandlerError::kind, (&HandlerError::SendError(e),), sent),
        call_ensures(HandlerError::message, (&HandlerError::RecvError(e),), receive_text),
        call_ensures(HandlerError::message, (&HandlerError::SendError(e),), send_text),
    ensures
        received is InvalidArgs <==> e.class == Some(ProtocolErrorKind::InvalidArgs),
        sent is Other,
        receive_text@ == "failed to receive request"@,
        send_text@ == "failed to send response"@,
{
}

} // verus!
