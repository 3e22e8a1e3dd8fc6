//! The manager's side of the handshake.
//!
//! The agent opens with its agent information. The manager admits it if the
//! frame decodes and the protocol version lies in the window between a
//! requirement, the floor, and a highest version, the ceiling.

use vstd::prelude::*;

use crate::agent_info::{decode_agent_info, AgentInfo, AgentInfoDecodeError};
use crate::protocol_error::{IoError, IoErrorKind};

verus! {

use crate::agent_info::agent_info_decoding;

/// Why a handshake failed.
#[derive(Clone, Debug, Eq, PartialEq)]
pub enum HandshakeError {
    /// The peer closed the connection.
    ConnectionClosed,
    /// The connection was lost, for the reason given.
    ConnectionLost(String),
    /// A message could not be received.
    ReadError(IoError),
    /// A message could not be sent.
    WriteError(IoError),
    /// A message was too long to send.
    MessageTooLarge,
    /// A message does not decode.
    InvalidMessage,
    /// The protocol version lies outside of the window: the version, and the
    /// requirement.
    IncompatibleProtocol(String, String),
}

/// The text of a handshake error.
pub open spec fn handshake_error_text(e: HandshakeError) -> Seq<char> {
    match e {
        HandshakeError::ConnectionClosed => "connection closed by peer"@,
        HandshakeError::ConnectionLost(_) => "connection lost"@,
        HandshakeError::ReadError(cause) => "cannot receive a message: "@ + cause.message@,
        HandshakeError::WriteError(_) => "cannot send a message"@,
        HandshakeError::MessageTooLarge => "arguments are too long"@,
        HandshakeError::InvalidMessage => "invalid message"@,
        HandshakeError::IncompatibleProtocol(version, required) => "protocol version "@ + version@
            + " is not supported; version "@ + required@ + " is required"@,
    }
}

impl HandshakeError {
    /// Returns the text of the error.
    pub fn message(&self) -> (text: String)
        ensures
            text@ == handshake_error_text(*self),
    {
        match self {
            HandshakeError::ConnectionClosed => "connection closed by peer".to_owned(),
            HandshakeError::ConnectionLost(_) => "connection lost".to_owned(),
            HandshakeError::ReadError(cause) => {
                let mut text: String = "cannot receive a message: ".to_owned();
                text.append(cause.message.as_str());
                text
            },
            HandshakeError::WriteError(_) => "cannot send a message".to_owned(),
            HandshakeError::MessageTooLarge => "arguments are too long".to_owned(),
            HandshakeError::InvalidMessage => "invalid message".to_owned(),
            HandshakeError::IncompatibleProtocol(version, required) => {
                let mut text: String = "protocol version ".to_owned();
                text.append(version.as_str());
                text.append(" is not supported; version ");
                text.append(required.as_str());
                text.append(" is required");
                text
            },
        }
    }
}

/// Returns what a failure to send amounts to. Data that the transport calls
/// invalid was too large to be sent.
pub fn handle_handshake_send_io_error(e: IoError) -> (r: HandshakeError)
    ensures
        r == (if e.kind == IoErrorKind::InvalidData {
            HandshakeError::MessageTooLarge
        } else {
            HandshakeError::WriteError(e)
        }),
{
    if e.kind == IoErrorKind::InvalidData {
        HandshakeError::MessageTooLarge
    } else {
        HandshakeError::WriteError(e)
    }
}

/// Returns what a failure to receive amounts to.
pub fn handle_handshake_recv_io_error(e: IoError) -> (r: HandshakeError)
    ensures
        r == match e.kind {
            IoErrorKind::InvalidData => HandshakeError::InvalidMessage,
            IoErrorKind::UnexpectedEof => HandshakeError::ConnectionClosed,
            _ => HandshakeError::ReadError(e),
        },
{
    match e.kind {
        IoErrorKind::InvalidData => HandshakeError::InvalidMessage,
        IoErrorKind::UnexpectedEof => HandshakeError::ConnectionClosed,
        _ => HandshakeError::ReadError(e),
    }
}

/// Whether a version meets a requirement, or `None` if either is malformed.
pub uninterp spec fn meets_requirement(version: Seq<char>, required: Seq<char>) -> Option<bool>;

/// Whether a version is at most the highest one, or `None` if either is
/// malformed.
pub uninterp spec fn is_at_most(version: Seq<char>, highest: Seq<char>) -> Option<bool>;

/// Calls `semver::VersionReq::matches`, once `semver::VersionReq::parse` and
/// `semver::Version::parse` accept the texts.
///
/// Claimed of it: the answer is a function of the two texts.
#[verifier::external_body]
fn version_meets(version: &str, required: &str) -> (r: Option<bool>)
    ensures
        r == meets_requirement(version@, required@),
{
    let version = semver::Version::parse(version).ok()?;
    let required = semver::VersionReq::parse(required).ok()?;
    Some(required.matches(&version))
}

/// Compares two versions in the order of `semver::Version`, once
/// `semver::Version::parse` accepts the texts.
///
/// Claimed of it: the answer is a function of the two texts.
#[verifier::external_body]
fn version_at_most(version: &str, highest: &str) -> (r: Option<bool>)
    ensures
        r == is_at_most(version@, highest@),
{
    let version = semver::Version::parse(version).ok()?;
    let highest = semver::Version::parse(highest).ok()?;
    Some(version <= highest)
}

/// Whether the answers to the two questions about a version admit it.
pub open spec fn in_window(meets: Option<bool>, at_most: Option<bool>) -> bool {
    meets == Some(true) && at_most == Some(true)
}

/// Decides on a version, given whether it meets the requirement and whether
/// it is at most the highest one. A question without an answer keeps the
/// version out.
pub fn decide_protocol_version(
    version: &str,
    required: &str,
    meets: Option<bool>,
    at_most: Option<bool>,
) -> (r: Result<(), HandshakeError>)
    ensures
        in_window(meets, at_most) ==> r == Ok::<(), HandshakeError>(()),
        !in_window(meets, at_most) ==> {
            &&& r matches Err(HandshakeError::IncompatibleProtocol(v, req))
            &&& v@ == version@
            &&& req@ == required@
        },
{
    match (meets, at_most) {
        (Some(true), Some(true)) => Ok(()),
        _ => Err(HandshakeError::IncompatibleProtocol(version.to_owned(), required.to_owned())),
    }
}

/// Checks a protocol version against the window from the requirement up to
/// the highest version.
pub fn check_protocol_version(version: &str, required: &str, highest: &str) -> (r: Result<
    (),
    HandshakeError,
>)
    ensures
        in_window(
            meets_requirement(version@, required@),
            is_at_most(version@, highest@),
        ) ==> r == Ok::<(), HandshakeError>(()),
        !in_window(meets_requirement(version@, required@), is_at_most(version@, highest@)) ==> {
            &&& r matches Err(HandshakeError::IncompatibleProtocol(v, req))
            &&& v@ == version@
            &&& req@ == required@
        },
{
    let meets = version_meets(version, required);
    let at_most = version_at_most(version, highest);
    decide_protocol_version(version, required, meets, at_most)
}

/// Takes in the agent information frame of an agent.
///
/// A frame that does not decode is an invalid message, also where only its
/// tail is corrupt.
pub fn accept_agent(frame: &[u8], required: &str, highest: &str) -> (r: Result<
    AgentInfo,
    HandshakeError,
>)
    ensures
        match agent_info_decoding(frame@) {
            Err(_) => r == Err::<AgentInfo, HandshakeError>(HandshakeError::InvalidMessage),
            Ok(info) => if in_window(
                meets_requirement(info.protocol_version, required@),
                is_at_most(info.protocol_version, highest@),
            ) {
                r matches Ok(value) && value@ == info
            } else {
                &&& r matches Err(HandshakeError::IncompatibleProtocol(v, req))
                &&& v@ == info.protocol_version
                &&& req@ == required@
            },
        },
{
    let info = match decode_agent_info(frame) {
        Ok(info) => info,
        Err(_) => return Err(HandshakeError::InvalidMessage),
    };
    match check_protocol_version(info.protocol_version.as_str(), required, highest) {
        Ok(()) => Ok(info),
        Err(e) => Err(e),
    }
}

/// A message that could not be sent because of its size is told apart from
/// every other failure to send, which is handed back as it is.
pub proof fn send_failures_are_told_apart(e: IoError, r: HandshakeError)
    requires
        call_ensures(handle_handshake_send_io_error, (e,), r),
    ensures
        e.kind is InvalidData <==> r is MessageTooLarge,
        !(e.kind is InvalidData) <==> r == HandshakeError::WriteError(e),
{
}

/// A message that does not decode and a connection that was closed are told
/// apart from every other failure to receive, which is handed back as it is.
pub proof fn receive_failures_are_told_apart(e: IoError, r: HandshakeError)
    requires
        call_ensures(handle_handshake_recv_io_error, (e,), r),
    ensures
        e.kind is InvalidData <==> r is InvalidMessage,
        e.kind is UnexpectedEof <==> r is ConnectionClosed,
        !(e.kind is InvalidData) && !(e.kind is UnexpectedEof) <==> r == HandshakeError::ReadError(
            e,
        ),
{
}

/// A version is admitted only if it is known to meet the requirement and known
/// to be at most the highest one. One that is kept out is named, together with
/// the requirement.
pub proof fn admitted_version_lies_in_the_window(
    version: &str,
    required: &str,
    meets: Option<bool>,
    at_most: Option<bool>,
    r: Result<(), HandshakeError>,
)
    requires
        call_ensures(decide_protocol_version, (version, required, meets, at_most), r),
    ensures
        r is Ok <==> meets is Some && meets->0 && at_most is Some && at_most->0,
        r matches Err(e) ==> {
            &&& e matches HandshakeError::IncompatibleProtocol(named, requirement)
            &&& named@ == version@
            &&& requirement@ == required@
        },
{
}

/// The check of a version asks for the floor and for the ceiling, and admits
/// it only if semver affirms both.
pub proof fn version_check_asks_for_both_bounds(
    version: &str,
    required: &str,
    highest: &str,
    r: Result<(), HandshakeError>,
)
    requires
        call_ensures(check_protocol_version, (version, required, highest), r),
    ensures
        r is Ok <==> meets_requirement(version@, required@) == Some(true) && is_at_most(
            version@,
            highest@,
        ) == Some(true),
        r matches Err(e) ==> {
            &&& e matches HandshakeError::IncompatibleProtocol(named, requirement)
            &&& named@ == version@
            &&& requirement@ == required@
        },
{
}

/// An agent is accepted exactly if its frame decodes and its version passes
/// the check, and then with what the frame says. A frame that does not decode
/// is an invalid message, and a version that does not pass is refused by name.
pub proof fn accepted_agent_is_what_its_frame_says(
    frame: &[u8],
    required: &str,
    highest: &str,
    decoded: Result<AgentInfo, AgentInfoDecodeError>,
    r: Result<AgentInfo, HandshakeError>,
)
    requires
        call_ensures(decode_agent_info, (frame,), decoded),
        call_ensures(accept_agent, (frame, required, highest), r),
    ensures
        decoded is Err <==> r == Err::<AgentInfo, HandshakeError>(HandshakeError::InvalidMessage),
        decoded matches Ok(info) ==> {
            &&& r is Ok <==> meets_requirement(info.protocol_version@, required@) == Some(true)
                && is_at_most(info.protocol_version@, highest@) == Some(true)
            &&& r matches Ok(accepted) ==> accepted@ == info@
            &&& r matches Err(e) ==> {
                &&& e matches HandshakeError::IncompatibleProtocol(named, requirement)
                &&& named@ == info.protocol_version@
                &&& requirement@ == required@
            }
        },
{
}

/// What each failure of a handshake says.
pub proof fn handshake_failures_say_what_happened(e: HandshakeError, text: String)
    requires
        call_ensures(HandshakeError::message, (&e,), text),
    ensures
        e is ConnectionClosed ==> text@ == "connection closed by peer"@,
        e is ConnectionLost ==> text@ == "connection lost"@,
        e matches HandshakeError::ReadError(cause) ==> text@ == "cannot receive a message: "@
            + cause.message@,
        e is WriteError ==> text@ == "cannot send a message"@,
        e is MessageTooLarge ==> text@ == "arguments are too long"@,
        e is InvalidMessage ==> text@ == "invalid message"@,
        e matches HandshakeError::IncompatibleProtocol(version, required) ==> text@
            == "protocol version "@ + version@ + " is not supported; version "@ + required@
            + " is required"@,
{
}

} // verus!
