use review_protocol::auth::{
    AuthorizationContext, AuthorizationError, Authorizer, AuthorizerV2, PeerContext,
};
use review_protocol::protocol_error::{IoError, IoErrorKind};
use review_protocol::request::{NextChunk, PackageReader};
use review_protocol::server::api::{
    encode_request, install_size, power_outcome, reject_install, response, ApiError, Exchange,
    Reply,
};
use review_protocol::server::install::{
    install_exchange, install_fits, start_install, InstallAction, InstallEvent, InstallState,
    PACKAGE_CHUNK_LEN,
};
use review_protocol::server::node::{InstallOutcome, Node, NodePowerOutcome, TerminalPreflight};
use review_protocol::server::Connection;
use review_protocol::service_id::ServiceId;
use review_protocol::types::node::{
    CertGroup, DeliveryMode, FailurePolicy, InstallPreflight, Lifecycle, NodeEnrollRequest,
    NodeHostnameRequest, NodeLoggingRequest, NodeNetworkInterfaceRequest, NodeObservationRequest,
    NodeObservationResponse, NodePackageRequest, NodePackageResponse, NodePowerRequest,
    NodePowerResponse, NodeRemoteAccessRequest, NodeRequest, NodeServiceRequest,
    NodeTimeSyncRequest, NodeVersionRequest, ReloadHook, ServiceSpec, Span,
};

fn io_error() -> IoError {
    IoError::new(IoErrorKind::ConnectionReset, "peer reset".to_string())
}

fn install_request(target: &str, size: u64) -> NodePackageRequest {
    NodePackageRequest::Install {
        target: target.to_string(),
        instance: Some(1),
        version: "1.2.3".to_string(),
        commit: "0123456789abcdef".to_string(),
        size,
        idempotency_key: "idem-1".to_string(),
        bootstrap_material: None,
        on_failure: FailurePolicy::Rollback,
    }
}

struct Allow;

impl Authorizer for Allow {
    fn authorize(&self, _: &PeerContext, _: &ServiceId) -> Result<(), AuthorizationError> {
        Ok(())
    }
}

struct Deny;

impl Authorizer for Deny {
    fn authorize(&self, _: &PeerContext, _: &ServiceId) -> Result<(), AuthorizationError> {
        Err(AuthorizationError::new("denied"))
    }
}

/// Allows only `node.power.reboot`.
struct RebootOnly;

impl Authorizer for RebootOnly {
    fn authorize(&self, _: &PeerContext, service: &ServiceId) -> Result<(), AuthorizationError> {
        if service.name() == "node.power.reboot" {
            Ok(())
        } else {
            Err(AuthorizationError::new("only reboot allowed"))
        }
    }
}

/// Allows observation but denies everything else.
struct ObservationOnly;

impl Authorizer for ObservationOnly {
    fn authorize(&self, _: &PeerContext, service: &ServiceId) -> Result<(), AuthorizationError> {
        if service.family == "node.observation" {
            Ok(())
        } else {
            Err(AuthorizationError::new("only observation allowed"))
        }
    }
}

struct RequireAdmin;

impl AuthorizerV2 for RequireAdmin {
    fn authorize_with_context(
        &self,
        context: &AuthorizationContext,
        _: &ServiceId,
    ) -> Result<(), AuthorizationError> {
        let admin = "admin".to_string();
        if context.roles.as_ref().is_some_and(|r| r.contains(&admin)) {
            Ok(())
        } else {
            Err(AuthorizationError::new("admin required"))
        }
    }
}

/// A payload of `len` bytes with a recognizable pattern.
fn payload(len: usize) -> Vec<u8> {
    (0..len).map(|i| (i % 251) as u8).collect()
}

fn peer() -> PeerContext {
    PeerContext::new("test-agent")
}

fn admin() -> AuthorizationContext {
    let mut context = AuthorizationContext::from_peer_context(&peer());
    context.roles = Some(vec!["admin".to_string()]);
    context
}

/// The frame is the number in four bytes, the lowest first, and the payload.
#[test]
fn request_frame_layout() {
    assert_eq!(encode_request(109, &[7, 8]), vec![109, 0, 0, 0, 7, 8]);
    assert_eq!(
        encode_request(0x0102_0304, &[]),
        vec![0x04, 0x03, 0x02, 0x01]
    );
}

#[test]
fn send_ping() {
    let exchange = Connection.send_ping();
    assert_eq!(exchange.number, 17);
    assert!(exchange.payload.is_empty());
    assert_eq!(exchange.reply, Reply::Awaited);
}

#[test]
fn send_config_update_cmd() {
    let exchange = Connection.send_config_update_cmd();
    assert_eq!(exchange.number, 12);
    assert!(exchange.payload.is_empty());
}

/// Reads a payload back as a list of texts.
fn decode_list(payload: &[u8]) -> Vec<String> {
    let (list, n): (Vec<String>, usize) =
        bincode::serde::decode_from_slice(payload, bincode::config::standard()).unwrap();
    assert_eq!(n, payload.len());
    list
}

#[test]
fn send_tor_exit_node_list() {
    let list = vec!["192.168.1.1".to_string(), "10.0.0.1".to_string()];
    let exchange = Connection.send_tor_exit_node_list(&list);
    assert_eq!(exchange.number, 8);
    assert_eq!(decode_list(&exchange.payload), list);
    assert_eq!(exchange.reply, Reply::Awaited);
}

/// A list of texts is its length and its entries, each with its own length.
#[test]
fn list_payload_layout() {
    let list = vec!["a".to_string(), "bc".to_string()];
    let exchange = Connection.send_tor_exit_node_list(&list);
    assert_eq!(exchange.payload, vec![2, 1, b'a', 2, b'b', b'c']);
    assert_eq!(Connection.send_tor_exit_node_list(&[]).payload, vec![0]);
}

#[test]
fn send_trusted_domain_list() {
    let list = vec!["example.com".to_string(), "test.org".to_string()];
    let exchange = Connection.send_trusted_domain_list(&list);
    assert_eq!(exchange.number, 0);
    assert_eq!(decode_list(&exchange.payload), list);
}

#[test]
fn send_trusted_user_agent_list() {
    let list = vec!["Mozilla/5.0".to_string(), "Chrome/91.0".to_string()];
    let exchange = Connection.send_trusted_user_agent_list(&list);
    assert_eq!(exchange.number, 18);
    assert_eq!(decode_list(&exchange.payload), list);
}

#[test]
fn flat_commands_carry_their_payload() {
    let conn = Connection;
    assert_eq!(conn.send_allowlist(1u8).number, 15);
    assert_eq!(conn.send_blocklist(2u8).number, 16);
    assert_eq!(conn.send_delete_customer_data_cmd(3u8).number, 22);
    assert_eq!(conn.send_filtering_rules(4u8).number, 10);
    assert_eq!(conn.send_internal_network_list(5u8).number, 14);
    let exchange = conn.send_sampling_policies(6u8);
    assert_eq!(exchange.number, 9);
    assert_eq!(exchange.payload, 6);
}

#[test]
fn node_requests_go_under_their_codes() {
    let conn = Connection;
    let node = conn.node();
    let service = || NodeServiceRequest::Status {
        service: "nginx".to_string(),
    };
    assert_eq!(conn.node_service(service()).number, 100);
    assert_eq!(node.service(service()).payload, service());
    let list = || NodeNetworkInterfaceRequest::List { prefix: None };
    assert_eq!(node.network_interface(list()).number, 101);
    assert_eq!(node.hostname(NodeHostnameRequest::Get).number, 102);
    assert_eq!(node.time_sync(NodeTimeSyncRequest::Enable).number, 103);
    assert_eq!(node.logging(NodeLoggingRequest::Clear).number, 104);
    assert_eq!(node.remote_access(NodeRemoteAccessRequest::Get).number, 105);
    assert_eq!(
        node.observation(NodeObservationRequest::ResourceUsage).number,
        107
    );
    assert_eq!(node.version(NodeVersionRequest::Get).number, 108);
}

/// The outcome of a power operation on an agent that initiates it.
fn power_outcome_of(exchange: Exchange<NodePowerRequest>) -> NodePowerOutcome {
    assert_eq!(exchange.number, 106);
    power_outcome(match exchange.reply {
        Reply::NotAwaited => None,
        Reply::Awaited => Some(NodePowerResponse::Initiated),
    })
}

#[test]
fn power_reboot_returns_sent() {
    let exchange = Connection.node().power(NodePowerRequest::Reboot);
    assert_eq!(exchange.payload, NodePowerRequest::Reboot);
    assert!(matches!(power_outcome_of(exchange), NodePowerOutcome::Sent));
}

#[test]
fn power_shutdown_returns_sent() {
    let exchange = Connection.node().power(NodePowerRequest::Shutdown);
    assert_eq!(exchange.payload, NodePowerRequest::Shutdown);
    assert!(matches!(power_outcome_of(exchange), NodePowerOutcome::Sent));
}

#[test]
fn power_via_node_handle() {
    let exchange = Connection.node().power(NodePowerRequest::GracefulReboot);
    assert_eq!(exchange.reply, Reply::Awaited);
    assert!(matches!(
        power_outcome_of(exchange),
        NodePowerOutcome::Response(NodePowerResponse::Initiated)
    ));
}

#[test]
fn reboot_no_response() {
    let conn = Connection;
    let exchange = Node::new(&conn).reboot();
    assert_eq!(exchange.payload, NodePowerRequest::Reboot);
    assert_eq!(exchange.reply, Reply::NotAwaited);
}

#[test]
fn shutdown_no_response() {
    let conn = Connection;
    let exchange = Node::new(&conn).shutdown();
    assert_eq!(exchange.payload, NodePowerRequest::Shutdown);
    assert_eq!(exchange.reply, Reply::NotAwaited);
}

#[test]
fn reboot_authorized_no_response() {
    let exchange = Connection
        .node()
        .reboot_authorized(&peer(), &Allow)
        .unwrap();
    assert_eq!(exchange.payload, NodePowerRequest::Reboot);
    assert_eq!(exchange.reply, Reply::NotAwaited);
}

#[test]
fn shutdown_authorized_no_response() {
    let exchange = Connection
        .node()
        .shutdown_authorized(&peer(), &Allow)
        .unwrap();
    assert_eq!(exchange.payload, NodePowerRequest::Shutdown);
    assert_eq!(exchange.reply, Reply::NotAwaited);
    let denied = Connection.node().shutdown_authorized(&peer(), &RebootOnly);
    assert_eq!(
        denied.unwrap_err().message(),
        "authorization denied: only reboot allowed"
    );
}

#[test]
fn node_power_authorization_denied() {
    let denied = Connection
        .node_power_authorized(NodePowerRequest::Reboot, &peer(), &Deny)
        .unwrap_err();
    assert_eq!(denied, ApiError::Denied(AuthorizationError::new("denied")));
    assert!(denied.message().contains("authorization denied"));
}

#[test]
fn node_observation_authorization_selective() {
    let conn = Connection;
    let exchange = conn
        .node_observation_authorized(
            NodeObservationRequest::ResourceUsage,
            &peer(),
            &ObservationOnly,
        )
        .unwrap();
    assert_eq!(exchange.payload, NodeObservationRequest::ResourceUsage);
    assert_eq!(exchange.reply, Reply::Awaited);
    let answer = || NodeObservationResponse::<(), (f32, u64, u64, u64, u64)>::ResourceUsage {
        hostname: "test-host".to_string(),
        resource_usage: (0.5, 100, 50, 500, 500),
    };
    assert_eq!(response(Ok(Ok(answer()))), Ok(answer()));
    assert!(conn
        .node_power_authorized(NodePowerRequest::Reboot, &peer(), &ObservationOnly)
        .is_err());
}

/// An authorizer can allow one method of a family and deny the others, also
/// through a trait object.
#[test]
fn node_power_authorization_method_level() {
    let authorizer: &dyn Authorizer = &RebootOnly;
    let conn = Connection;
    let exchange = conn
        .node_power_authorized(NodePowerRequest::Reboot, &peer(), authorizer)
        .unwrap();
    assert!(matches!(power_outcome_of(exchange), NodePowerOutcome::Sent));

    let denied = conn
        .node_power_authorized(NodePowerRequest::Shutdown, &peer(), authorizer)
        .unwrap_err();
    assert!(denied.message().contains("only reboot allowed"));

    assert!(conn
        .node_power_authorized(NodePowerRequest::GracefulReboot, &peer(), authorizer)
        .is_err());
}

#[test]
fn power_with_context_denied_by_role() {
    let plain = AuthorizationContext::from_peer_context(&peer());
    let node_conn = Connection;
    let node = node_conn.node();
    let denied = node.power_with_context(NodePowerRequest::Reboot, &plain, &RequireAdmin);
    assert_eq!(
        denied.unwrap_err().message(),
        "authorization denied: admin required"
    );
    assert!(node
        .power_with_context(NodePowerRequest::Reboot, &admin(), &RequireAdmin)
        .is_ok());
    assert!(node.reboot_with_context(&admin(), &RequireAdmin).is_ok());
}

#[test]
fn node_package_rejects_install() {
    let text = "an install request carries a payload; use `node_package_install`";
    let conn = Connection;
    let plain = AuthorizationContext::from_peer_context(&peer());
    let errors = [
        conn.node_package(install_request("sensor", 4_096)).unwrap_err(),
        conn.node_package_authorized(install_request("sensor", 4_096), &peer(), &Deny)
            .unwrap_err(),
        conn.node_package_with_context(install_request("sensor", 1), &plain, &RequireAdmin)
            .unwrap_err(),
        reject_install(&install_request("sensor", 1)).unwrap_err(),
    ];
    for e in errors {
        assert_eq!(e.message(), text);
    }
    assert_eq!(reject_install(&NodePackageRequest::ListInstalled), Ok(()));
}

#[test]
fn node_package_install_rejects_unary_variants() {
    let text = "`node_package_install` accepts only an install request; use `node_package`";
    let unary = [
        NodePackageRequest::Remove {
            target: "sensor".to_string(),
            instance: Some(1),
            idempotency_key: "idem-1".to_string(),
        },
        NodePackageRequest::ListInstalled,
        NodePackageRequest::Status {
            target: "sensor".to_string(),
            instance: Some(1),
        },
    ];
    for req in unary {
        assert_eq!(install_size(&req), Err(ApiError::NotAnInstall));
        assert_eq!(
            Connection.node_package(req.clone()).unwrap().payload,
            req.clone()
        );
        let e = Connection.node_package_install(req.clone()).unwrap_err();
        assert_eq!(e.message(), text);
        let e = Connection
            .node_package_install_authorized(req, &peer(), &Deny)
            .unwrap_err();
        assert_eq!(e.message(), text);
    }
    assert_eq!(install_size(&install_request("sensor", 9)), Ok(9));
}

#[test]
fn package_install_authorized_denied_via_node_handle() {
    let conn = Connection;
    let denied = conn
        .node()
        .package_install_authorized(install_request("sensor", 512), &peer(), &Deny)
        .unwrap_err();
    assert!(denied.message().contains("authorization denied"));
    let plan = conn
        .node()
        .package_install_authorized(install_request("sensor", 4), &peer(), &Allow)
        .unwrap();
    assert_eq!(plan.request.number, 109);
    assert!(matches!(plan.state, InstallState::Requesting { size: 4 }));
}

fn enroll_register() -> NodeEnrollRequest {
    NodeEnrollRequest::Register {
        service_name: "sensor".to_string(),
        delivery_mode: DeliveryMode::RemoteBootstrap,
        host: "host01".to_string(),
        instance: Some(1),
        registration: ServiceSpec {
            component: "sensor".to_string(),
            service_name: "sensor".to_string(),
            reload: ReloadHook("reload-sensor".to_string()),
            cert_group: Some(CertGroup("internal".to_string())),
        },
        wrap_ttl: Span { secs: 600, nanos: 0 },
        idempotency_key: "idem-1".to_string(),
    }
}

/// Both methods of the family are separately grantable: an authorizer that
/// allows only `node.enroll.register` refuses the other.
#[test]
fn enroll_authorized_uses_the_method_level_service_id() {
    struct RegisterOnly;
    impl Authorizer for RegisterOnly {
        fn authorize(&self, _: &PeerContext, s: &ServiceId) -> Result<(), AuthorizationError> {
            if s.name() == "node.enroll.register" {
                Ok(())
            } else {
                Err(AuthorizationError::new("denied"))
            }
        }
    }
    let conn = Connection;
    let exchange = conn
        .node()
        .enroll_authorized(enroll_register(), &peer(), &RegisterOnly)
        .unwrap();
    assert_eq!(exchange.number, 110);
    assert_eq!(exchange.payload, enroll_register());

    let deregister = NodeEnrollRequest::Deregister {
        service_name: "sensor".to_string(),
        host: "host01".to_string(),
        instance: Some(1),
        idempotency_key: "idem-1".to_string(),
    };
    let denied = conn
        .node()
        .enroll_authorized(deregister, &peer(), &RegisterOnly)
        .unwrap_err();
    assert!(denied.message().contains("authorization denied"));
}

#[test]
fn operations_have_dotted_names() {
    assert_eq!(
        NodeObservationRequest::ProcessList.service_id().name(),
        "node.observation.process_list"
    );
    let start = NodeServiceRequest::Start {
        service: "s".to_string(),
    };
    assert_eq!(start.service_id().name(), "node.service.start");
    assert_eq!(
        install_request("sensor", 1).service_id().name(),
        "node.package.install"
    );
    assert_eq!(
        NodePackageRequest::ListInstalled.service_id().name(),
        "node.package.list"
    );
    assert_ne!(
        NodePowerRequest::Reboot.service_id(),
        NodePowerRequest::GracefulReboot.service_id()
    );
}

#[test]
fn responses_are_unwrapped() {
    assert_eq!(response::<u8>(Ok(Ok(1))), Ok(1));
    assert_eq!(
        response::<u8>(Ok(Err("not supported".to_string()))),
        Err(ApiError::Remote("not supported".to_string()))
    );
    assert_eq!(
        response::<u8>(Err(io_error())),
        Err(ApiError::Transport(io_error()))
    );
    assert_eq!(ApiError::Transport(io_error()).message(), "peer reset");
    assert_eq!(ApiError::Remote("r".to_string()).message(), "r");
}

/// Runs an install against a scripted agent and source. Returns what happened
/// on the wire.
struct Run {
    sent: Vec<Vec<u8>>,
    asked: Vec<usize>,
    answer_awaited: bool,
    reset: Option<u32>,
    unread: Vec<u8>,
    outcome: Result<InstallOutcome, ApiError>,
}

fn run(
    target: &str,
    size: u64,
    verdict: Result<Result<InstallPreflight, String>, IoError>,
    source: &[u8],
    step: usize,
    answer: Result<Result<NodePackageResponse, String>, IoError>,
) -> Run {
    let size = install_size(&install_request(target, size)).unwrap();
    let (mut state, mut action) = start_install(size);
    let mut verdict = Some(verdict);
    let mut answer = Some(answer);
    let mut source = source;
    let mut run = Run {
        sent: Vec::new(),
        asked: Vec::new(),
        answer_awaited: false,
        reset: None,
        unread: Vec::new(),
        outcome: Err(ApiError::NotAnInstall),
    };
    loop {
        let event = match action {
            InstallAction::SendRequest => InstallEvent::Requested(Ok(())),
            InstallAction::ReceiveVerdict => InstallEvent::Verdict(verdict.take().unwrap()),
            InstallAction::Read(want) => {
                run.asked.push(want);
                let n = want.min(step).min(source.len());
                let chunk = source[..n].to_vec();
                source = &source[n..];
                InstallEvent::Read(Ok(chunk))
            }
            InstallAction::SendChunk(chunk) => {
                run.sent.push(chunk);
                InstallEvent::ChunkSent(Ok(()))
            }
            InstallAction::ReceiveResponse => {
                run.answer_awaited = true;
                InstallEvent::Response(answer.take().unwrap())
            }
            InstallAction::Abort(code, e) => {
                run.reset = Some(code);
                run.unread = source.to_vec();
                run.outcome = Err(e);
                return run;
            }
            InstallAction::Finish(outcome) => {
                run.unread = source.to_vec();
                run.outcome = outcome;
                return run;
            }
        };
        assert!(install_fits(&state, &event));
        let (next_state, next_action) = install_exchange(state, event);
        state = next_state;
        action = next_action;
    }
}

/// The length is not a multiple of the chunk length.
#[test]
fn api_node_package_install_proceed() {
    let pkg = payload(150_000);
    let done = Ok(Ok(NodePackageResponse::Done));
    let proceed = Ok(Ok(InstallPreflight::Proceed));
    let r = run("sensor", pkg.len() as u64, proceed, &pkg, usize::MAX, done);
    assert_eq!(
        r.outcome,
        Ok(InstallOutcome::Applied(NodePackageResponse::Done)),
        "a completed install returns the agent's terminal response"
    );
    assert_eq!(r.sent.concat(), pkg);
    assert_eq!(r.reset, None);
}

/// A source may give less than it is asked for.
#[test]
fn short_reads_are_sent_as_they_come() {
    let done = Ok(Ok(NodePackageResponse::Done));
    let r = run("sensor", 5, Ok(Ok(InstallPreflight::Proceed)), b"abcde", 2, done);
    assert_eq!(
        r.sent,
        vec![b"ab".to_vec(), b"cd".to_vec(), b"e".to_vec()]
    );
    assert_eq!(r.asked, vec![5, 3, 1]);
    assert!(r.outcome.is_ok());
}

#[test]
fn api_node_package_install_accepted_is_terminal() {
    let pkg = payload(4_096);
    let accepted = Ok(Ok(NodePackageResponse::Accepted));
    let proceed = Ok(Ok(InstallPreflight::Proceed));
    let r = run("selfdisrupting", pkg.len() as u64, proceed, &pkg, usize::MAX, accepted);
    assert_eq!(
        r.outcome,
        Ok(InstallOutcome::Applied(NodePackageResponse::Accepted))
    );
}

/// A chunk never holds more than the chunk length, and what an agent's reader
/// gets is the whole payload.
#[test]
fn large_package_is_cut_into_chunks() {
    let size = PACKAGE_CHUNK_LEN * 2 + 17;
    let source: Vec<u8> = (0..size).map(|i| (i % 251) as u8).collect();
    let done = Ok(Ok(NodePackageResponse::Done));
    let r = run(
        "sensor",
        size,
        Ok(Ok(InstallPreflight::Proceed)),
        &source,
        usize::MAX,
        done,
    );
    assert_eq!(r.asked, vec![65536, 65536, 17]);
    let mut reader = PackageReader::new(size);
    let mut payload = Vec::new();
    for chunk in r.sent {
        assert_eq!(reader.next_chunk(), NextChunk::Read);
        payload.extend_from_slice(&reader.read_chunk(Ok(chunk)).unwrap());
    }
    assert_eq!(reader.next_chunk(), NextChunk::Complete);
    assert_eq!(payload, source);
}

#[test]
fn node_package_install_already_applied() {
    let pkg = payload(4_096);
    let verdict = Ok(Ok(InstallPreflight::AlreadyApplied));
    let r = run("already", pkg.len() as u64, verdict, &pkg, usize::MAX, Err(io_error()));
    assert_eq!(
        r.outcome,
        Ok(InstallOutcome::Preflight(TerminalPreflight::AlreadyApplied))
    );
    assert!(
        r.sent.is_empty(),
        "no package bytes are sent after a terminal verdict"
    );
    assert_eq!(r.unread, pkg);
    assert!(!r.answer_awaited);
}

#[test]
fn node_package_install_insufficient_disk_space() {
    let pkg = payload(4_096);
    let verdict = Ok(Ok(InstallPreflight::InsufficientDiskSpace {
        filesystem: "/opt".to_string(),
        required: 4_194_304,
        available: 1_024,
    }));
    let r = run("nospace", pkg.len() as u64, verdict, &pkg, usize::MAX, Err(io_error()));
    assert_eq!(
        r.outcome,
        Ok(InstallOutcome::Preflight(
            TerminalPreflight::InsufficientDiskSpace {
                filesystem: "/opt".to_string(),
                required: 4_194_304,
                available: 1_024
            }
        ))
    );
    assert!(r.sent.is_empty());
}

/// A source that is longer than declared is read no further than declared.
#[test]
fn node_package_install_over_long_source() {
    let pkg = payload(5_000);
    let done = Ok(Ok(NodePackageResponse::Done));
    let proceed = Ok(Ok(InstallPreflight::Proceed));
    let r = run("sensor", 3_000, proceed, &pkg, usize::MAX, done);
    assert_eq!(
        r.outcome,
        Ok(InstallOutcome::Applied(NodePackageResponse::Done))
    );
    assert_eq!(
        r.sent.concat(),
        pkg[..3_000].to_vec(),
        "the agent receives exactly the declared size"
    );
    assert_eq!(r.unread, pkg[3_000..].to_vec(), "the surplus is still unread");
}

#[test]
fn node_package_install_short_source() {
    let pkg = payload(1_000);
    let done = Ok(Ok(NodePackageResponse::Done));
    let proceed = Ok(Ok(InstallPreflight::Proceed));
    let r = run("sensor", 8_000, proceed, &pkg, usize::MAX, done);
    assert_eq!(r.reset, Some(1));
    assert!(
        !r.answer_awaited,
        "the manager must not wait for the agent's response"
    );
    assert_eq!(
        r.outcome.unwrap_err().message(),
        "the package source ended after 1000 of 8000 bytes"
    );
}

#[test]
fn empty_package_is_answered_without_a_chunk() {
    let done = Ok(Ok(NodePackageResponse::Done));
    let r = run("sensor", 0, Ok(Ok(InstallPreflight::Proceed)), b"", 2, done);
    assert!(r.asked.is_empty());
    assert!(r.answer_awaited);
    assert!(r.outcome.is_ok());
}

#[test]
fn install_errors_name_their_place() {
    let r = run("sensor", 5, Err(io_error()), b"", 2, Err(io_error()));
    assert_eq!(
        r.outcome.unwrap_err().message(),
        "receiving the install preflight verdict"
    );
    let r = run("sensor", 5, Ok(Err("not supported".to_string())), b"", 2, Err(io_error()));
    assert_eq!(r.outcome.unwrap_err().message(), "not supported");
    let r = run("sensor", 0, Ok(Ok(InstallPreflight::Proceed)), b"", 2, Err(io_error()));
    assert_eq!(
        r.outcome.unwrap_err().message(),
        "receiving the install response"
    );
    let refused = Ok(Err("bad signature".to_string()));
    let r = run("sensor", 0, Ok(Ok(InstallPreflight::Proceed)), b"", 2, refused);
    assert_eq!(r.outcome.unwrap_err().message(), "bad signature");
}

#[test]
fn failed_transfer_is_reset() {
    let reading = InstallState::Reading {
        size: 5,
        remaining: 5,
    };
    let (_, action) = install_exchange(reading, InstallEvent::Read(Err(io_error())));
    match action {
        InstallAction::Abort(1, e) => assert_eq!(e.message(), "reading the package payload"),
        other => panic!("unexpected action: {other:?}"),
    }
    let sending = InstallState::Sending {
        size: 5,
        remaining: 3,
    };
    let (_, action) = install_exchange(sending, InstallEvent::ChunkSent(Err(io_error())));
    assert!(matches!(
        action,
        InstallAction::Abort(1, ApiError::Transport(_))
    ));
    let (state, _) = start_install(5);
    let (_, action) = install_exchange(state, InstallEvent::Requested(Err(io_error())));
    assert!(matches!(
        action,
        InstallAction::Finish(Err(ApiError::Transport(_)))
    ));
}

#[test]
fn oversized_read_does_not_fit() {
    let state = InstallState::Reading {
        size: 5,
        remaining: 2,
    };
    assert!(!install_fits(&state, &InstallEvent::Read(Ok(vec![0; 3]))));
    assert!(install_fits(&state, &InstallEvent::Read(Ok(vec![0; 2]))));
}

#[test]
fn lifecycle_numbers_read_back() {
    let known = [
        (Lifecycle::NotInstalled, 0),
        (Lifecycle::Installing, 1),
        (Lifecycle::Running, 2),
        (Lifecycle::Stopped, 3),
        (Lifecycle::Failed, 4),
        (Lifecycle::Removing, 5),
        (Lifecycle::Unknown, 255),
    ];
    for (state, n) in known {
        assert_eq!(state.number(), n);
        assert_eq!(Lifecycle::from_number(n), state);
    }
    assert_eq!(Lifecycle::from_number(6), Lifecycle::Unknown);
}
