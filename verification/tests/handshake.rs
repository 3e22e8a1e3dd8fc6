use review_protocol::agent_info::{encode_agent_info, AgentInfo};
use review_protocol::collections::{TextMap, TextSet};
use review_protocol::handshake::{
    accept_agent, check_protocol_version, decide_protocol_version, handle_handshake_recv_io_error,
    handle_handshake_send_io_error,
};
use review_protocol::protocol_error::{IoError, IoErrorKind};
use review_protocol::types::{
    capability, AuditHealth, ManifestFormatRange, ProvisioningFingerprint, SocketAddr, Status,
};
use review_protocol::{HandshakeError, MIN_PROTOCOL_VERSION_REQ, PROTOCOL_VERSION};

/// A version in which the requirement and the highest version coincide.
const VERSION: &str = "0.19.0";
const PREVIOUS_PROTOCOL_VERSION: &str = "0.48.0";

fn agent(version: &str) -> AgentInfo {
    AgentInfo {
        agent_name: "test-agent".to_string(),
        agent_version: "1.0.0".to_string(),
        protocol_version: version.to_string(),
        addr: SocketAddr::V4([0, 0, 0, 0], 0),
        status: Status::Ready,
        capabilities: TextSet::new(),
        active_trust_epoch: None,
        manifest_formats: None,
        provisioning_fingerprint: None,
        audit_health: None,
    }
}

fn io_error(kind: IoErrorKind) -> IoError {
    IoError::new(kind, "cause".to_string())
}

/// The two constants sit in the protocol namespace, whose successor to the
/// deployed `0.48.0` is `0.49.0`.
#[test]
fn protocol_version_constants() {
    let version = semver::Version::parse(PROTOCOL_VERSION).unwrap();
    assert_eq!(version, semver::Version::new(0, 49, 0));

    let req = semver::VersionReq::parse(MIN_PROTOCOL_VERSION_REQ).unwrap();
    assert!(req.matches(&version));
    assert!(!req.matches(&semver::Version::parse("0.48.0").unwrap()));
}

#[test]
fn handshake() {
    let info = accept_agent(&encode_agent_info(&agent(VERSION)), VERSION, VERSION).unwrap();
    assert_eq!(info.agent_name, "test-agent");
    assert_eq!(info.agent_version, "1.0.0");
    assert_eq!(info.protocol_version, VERSION);
}

/// An agent that advertises the full tail hands the manager exactly those
/// values.
#[test]
fn handshake_with_full_tail() {
    let mut capabilities = TextSet::new();
    capabilities.insert(capability::REGISTRAR.to_string());
    capabilities.insert("future:thing".to_string());
    let mut components = TextMap::new();
    components.insert("roxyd".to_string(), "sha256:abc".to_string());
    let sent = AgentInfo {
        addr: SocketAddr::V4([127, 0, 0, 1], 1234),
        status: Status::Idle,
        capabilities,
        active_trust_epoch: Some(7),
        manifest_formats: Some(ManifestFormatRange { min: 1, max: 2 }),
        provisioning_fingerprint: Some(ProvisioningFingerprint {
            components,
            domain: "example.test".to_string(),
        }),
        audit_health: Some(AuditHealth {
            below_low_water: true,
            intent_without_outcome: 2,
        }),
        ..agent(VERSION)
    };
    let received = accept_agent(&encode_agent_info(&sent), VERSION, VERSION).unwrap();
    assert_eq!(received, sent);
}

#[test]
fn handshake_at_protocol_version_ok() {
    let info = agent(PROTOCOL_VERSION);
    let accepted = accept_agent(
        &encode_agent_info(&info),
        MIN_PROTOCOL_VERSION_REQ,
        PROTOCOL_VERSION,
    );
    assert_eq!(accepted, Ok(info));
}

/// The floor: an agent that still advertises the predecessor protocol version
/// is refused.
#[test]
fn handshake_below_min_protocol_version_err() {
    let refused = accept_agent(
        &encode_agent_info(&agent(PREVIOUS_PROTOCOL_VERSION)),
        MIN_PROTOCOL_VERSION_REQ,
        PROTOCOL_VERSION,
    );
    assert_eq!(
        refused,
        Err(HandshakeError::IncompatibleProtocol(
            "0.48.0".to_string(),
            ">=0.49.0".to_string()
        ))
    );
    assert_eq!(
        refused.unwrap_err().message(),
        "protocol version 0.48.0 is not supported; version >=0.49.0 is required"
    );
}

/// The ceiling half of the same window.
#[test]
fn handshake_above_highest_protocol_version_err() {
    let refused = accept_agent(
        &encode_agent_info(&agent(PROTOCOL_VERSION)),
        MIN_PROTOCOL_VERSION_REQ,
        PREVIOUS_PROTOCOL_VERSION,
    );
    assert!(matches!(
        refused,
        Err(HandshakeError::IncompatibleProtocol(..))
    ));
}

#[test]
fn handshake_version_incompatible_err() {
    assert!(accept_agent(&encode_agent_info(&agent(VERSION)), "<0.19.0", VERSION).is_err());
}

#[test]
fn handshake_incompatible_err() {
    let above = encode_agent_info(&agent("0.20.1"));
    assert!(accept_agent(&above, ">=0.19.0", "0.19.1").is_err());
    assert!(check_protocol_version("0.19.1", ">=0.19.0", "0.19.1").is_ok());
}

#[test]
fn malformed_versions_are_kept_out() {
    assert!(check_protocol_version("not a version", ">=0.1.0", "1.0.0").is_err());
    assert!(check_protocol_version("0.5.0", "not a requirement", "1.0.0").is_err());
    assert!(check_protocol_version("0.5.0", ">=0.1.0", "not a version").is_err());
    assert!(check_protocol_version("0.5.0", ">=0.1.0", "1.0.0").is_ok());
}

#[test]
fn window_needs_both_bounds() {
    assert!(decide_protocol_version("1", "2", Some(true), Some(true)).is_ok());
    assert!(decide_protocol_version("1", "2", Some(true), Some(false)).is_err());
    assert!(decide_protocol_version("1", "2", Some(false), Some(true)).is_err());
    assert!(decide_protocol_version("1", "2", None, Some(true)).is_err());
    assert!(decide_protocol_version("1", "2", Some(true), None).is_err());
}

/// The bytes of the base fields, without the five bytes of an empty tail.
fn base_bytes() -> Vec<u8> {
    let full = encode_agent_info(&agent(VERSION));
    full[..full.len() - 5].to_vec()
}

/// A tail that is present but does not decode fails the handshake instead of
/// being read as an absent tail.
#[test]
fn handshake_corrupt_tail_err() {
    let mut payload = base_bytes();
    // A set that announces two entries but carries one.
    payload.extend_from_slice(&[0x02, 0x01, b'a']);
    assert_eq!(
        accept_agent(&payload, VERSION, VERSION),
        Err(HandshakeError::InvalidMessage)
    );
}

#[test]
fn handshake_without_tail() {
    let info = accept_agent(&base_bytes(), VERSION, VERSION).unwrap();
    assert_eq!(info.agent_name, "test-agent");
    assert!(info.capabilities.is_empty());
    assert_eq!(info.active_trust_epoch, None);
    assert_eq!(info.manifest_formats, None);
    assert_eq!(info.provisioning_fingerprint, None);
    assert_eq!(info.audit_health, None);
}

#[test]
fn send_errors_map() {
    assert_eq!(
        handle_handshake_send_io_error(io_error(IoErrorKind::InvalidData)),
        HandshakeError::MessageTooLarge
    );
    let e = io_error(IoErrorKind::BrokenPipe);
    assert_eq!(
        handle_handshake_send_io_error(e.clone()),
        HandshakeError::WriteError(e)
    );
}

#[test]
fn recv_errors_map() {
    assert_eq!(
        handle_handshake_recv_io_error(io_error(IoErrorKind::InvalidData)),
        HandshakeError::InvalidMessage
    );
    assert_eq!(
        handle_handshake_recv_io_error(io_error(IoErrorKind::UnexpectedEof)),
        HandshakeError::ConnectionClosed
    );
    let e = io_error(IoErrorKind::TimedOut);
    assert_eq!(
        handle_handshake_recv_io_error(e.clone()),
        HandshakeError::ReadError(e)
    );
}

/// An error that the handshake does not interpret is handed back as it is.
#[test]
fn other_io_errors_keep_their_kind() {
    for kind in [
        IoErrorKind::PermissionDenied,
        IoErrorKind::ConnectionRefused,
        IoErrorKind::WouldBlock,
        IoErrorKind::StorageFull,
        IoErrorKind::OutOfMemory,
    ] {
        let e = io_error(kind);
        assert_eq!(
            handle_handshake_recv_io_error(e.clone()),
            HandshakeError::ReadError(e.clone())
        );
        assert_eq!(
            handle_handshake_send_io_error(e.clone()),
            HandshakeError::WriteError(e)
        );
    }
}

#[test]
fn handshake_error_messages() {
    let e = io_error(IoErrorKind::Other);
    let cases = [
        (HandshakeError::ConnectionClosed, "connection closed by peer"),
        (
            HandshakeError::ConnectionLost("reset".to_string()),
            "connection lost",
        ),
        (
            HandshakeError::ReadError(e.clone()),
            "cannot receive a message: cause",
        ),
        (HandshakeError::WriteError(e), "cannot send a message"),
        (HandshakeError::MessageTooLarge, "arguments are too long"),
        (HandshakeError::InvalidMessage, "invalid message"),
    ];
    for (error, text) in cases {
        assert_eq!(error.message(), text);
    }
}
