use std::collections::VecDeque;

use review_protocol::client::RequestCode;
use review_protocol::protocol_error::{IoError, IoErrorKind, ProtocolErrorKind};
use review_protocol::request::dispatch::{
    fits, handle, handle_node, install_reply, processes_reply, start, usage_reply, Action, Answer,
    Args, Call, Event, Method, Pending, Reply, State,
};
use review_protocol::request::fallback;
use review_protocol::request::{
    node_power_expects_response, truncated_payload, HandlerError, NextChunk, PackageReader,
};
use review_protocol::types::node::{
    FailurePolicy, InstallPreflight, InstalledPackage, Lifecycle, NodeObservationRequest,
    NodeObservationResponse, NodePackageRequest, NodePackageResponse, NodePowerRequest,
    NodePowerResponse, PackageState,
};

#[derive(Clone, Debug, PartialEq)]
struct Process {
    user: String,
    cpu_usage: f32,
    mem_usage: f64,
    start_time: i64,
    command: String,
}

#[derive(Clone, Debug, PartialEq)]
struct ResourceUsage {
    cpu_usage: f32,
    total_memory: u64,
    used_memory: u64,
    disk_used_bytes: u64,
    disk_available_bytes: u64,
}

type Observation = NodeObservationResponse<Process, ResourceUsage>;

type Happened = Event<String, String, Process, ResourceUsage>;

type Step = fn(State, Happened) -> (State, Action<String, String, Process, ResourceUsage>);

fn all() -> Step {
    handle::<String, String, Process, ResourceUsage>
}

fn node_only() -> Step {
    handle_node::<String, String, Process, ResourceUsage>
}

fn eof() -> IoError {
    IoError::new(IoErrorKind::UnexpectedEof, "end of file".to_string())
}

fn reset() -> IoError {
    IoError::new(IoErrorKind::ConnectionReset, "peer reset".to_string())
}

fn not_supported<T>() -> Result<T, String> {
    fallback::not_supported()
}

/// How a scripted handler treats the payload of an install.
#[derive(Clone, Copy)]
enum Reading {
    /// Reads it all and fails with the first read that fails.
    All,
    /// Reads it all and takes no notice of a read that fails.
    Careless,
    /// Reads one chunk.
    One,
    Nothing,
}

/// A scripted agent: what comes in, and how its handler answers.
struct Agent {
    requests: VecDeque<Result<(u32, Vec<u8>), IoError>>,
    args: VecDeque<Result<Args<String>, IoError>>,
    chunks: VecDeque<Result<Vec<u8>, IoError>>,
    verdict: Result<InstallPreflight, String>,
    install: Result<NodePackageResponse, String>,
    reading: Reading,
    power: Result<NodePowerResponse, String>,
    observation: Result<Observation, String>,
    opaque: Result<String, String>,
    /// Whether the handler has only the flat methods for power and
    /// observation.
    flat_only: bool,
    called: Vec<String>,
    sent: Vec<String>,
    payload: Vec<u8>,
    send_fails: bool,
}

impl Agent {
    fn new() -> Self {
        Agent {
            requests: VecDeque::new(),
            args: VecDeque::new(),
            chunks: VecDeque::new(),
            verdict: not_supported(),
            install: not_supported(),
            reading: Reading::All,
            power: not_supported(),
            observation: not_supported(),
            opaque: not_supported(),
            flat_only: false,
            called: Vec::new(),
            sent: Vec::new(),
            payload: Vec::new(),
            send_fails: false,
        }
    }

    fn request(mut self, code: u32, body: &[u8]) -> Self {
        self.requests.push_back(Ok((code, body.to_vec())));
        self
    }

    fn args(mut self, args: Args<String>) -> Self {
        self.args.push_back(Ok(args));
        self
    }

    fn call(
        &mut self,
        state: &State,
        call: Call<String>,
    ) -> Answer<String, Process, ResourceUsage> {
        match call {
            Call::Bare(method) => {
                self.called.push(format!("{method:?}"));
                Answer::Opaque(self.opaque.clone())
            }
            Call::WithArgs(method, args) => {
                self.called.push(format!("{method:?}({args})"));
                Answer::Opaque(self.opaque.clone())
            }
            Call::Models(body) => {
                self.called.push(format!("Models({body:?})"));
                Answer::Opaque(self.opaque.clone())
            }
            Call::NodePower(req) if self.flat_only => {
                let flat = fallback::node_power(req);
                self.called.push(format!("{flat:?}"));
                Answer::Power(fallback::power_from_flat(match flat {
                    fallback::PowerFallback::NotSupported => not_supported(),
                    _ => Ok(()),
                }))
            }
            Call::NodePower(req) => {
                self.called.push(format!("NodePower({req:?})"));
                Answer::Power(self.power.clone())
            }
            Call::NodeObservation(req) if self.flat_only => {
                let flat = fallback::node_observation(req);
                self.called.push(format!("{flat:?}"));
                let result = match flat {
                    fallback::ObservationFallback::ProcessList => {
                        fallback::processes_from_flat(Ok(vec![flat_process()]))
                    }
                    fallback::ObservationFallback::ResourceUsage => {
                        fallback::usage_from_flat(Ok(("flat-host".to_string(), flat_usage())))
                    }
                    fallback::ObservationFallback::NotSupported => not_supported(),
                };
                let rendering = format!("{result:?}");
                Answer::Observation { result, rendering }
            }
            Call::NodeObservation(req) => {
                self.called.push(format!("NodeObservation({req:?})"));
                Answer::Observation {
                    result: self.observation.clone(),
                    rendering: format!("{:?}", self.observation),
                }
            }
            Call::NodePackage(_) => {
                self.called.push("NodePackage".to_string());
                Answer::Package(self.install.clone())
            }
            Call::Preflight => {
                assert!(matches!(
                    state,
                    State::Preflighting(NodePackageRequest::Install { .. })
                ));
                self.called.push("Preflight".to_string());
                Answer::Preflight(self.verdict.clone())
            }
            Call::Install(_, mut reader) => {
                self.called.push(format!("Install({})", reader.size()));
                let result = self.read_payload(&mut reader);
                Answer::Installed { result, reader }
            }
        }
    }

    fn read_payload(
        &mut self,
        reader: &mut PackageReader,
    ) -> Result<NodePackageResponse, String> {
        if let Reading::Nothing = self.reading {
            return self.install.clone();
        }
        while let NextChunk::Read = reader.next_chunk() {
            let chunk = self.chunks.pop_front().unwrap_or(Err(eof()));
            match (reader.read_chunk(chunk), self.reading) {
                (Ok(bytes), _) => self.payload.extend_from_slice(&bytes),
                (Err(_), Reading::Careless) => {}
                (Err(e), _) => return Err(format!("failed to read the payload: {}", e.message)),
            }
            if let Reading::One = self.reading {
                assert!(reader.remaining() > 0, "the handler must leave bytes behind");
                return self.install.clone();
            }
        }
        if let Reading::All = self.reading {
            assert_eq!(reader.remaining(), 0);
            assert_eq!(self.payload.len() as u64, reader.size());
        }
        self.install.clone()
    }

    fn run(&mut self, step: Step) -> Result<(), HandlerError> {
        let (mut state, mut action) = start();
        loop {
            let event = match action {
                Action::Receive => {
                    Event::Received(self.requests.pop_front().unwrap_or(Err(eof())))
                }
                Action::Parse(_, _) => Event::Parsed(self.args.pop_front().unwrap()),
                Action::Call(call) => Event::Handled(self.call(&state, call)),
                Action::Send(reply) => {
                    self.sent.push(render(reply));
                    Event::Sent(if self.send_fails { Err(reset()) } else { Ok(()) })
                }
                Action::ReadChunk => {
                    Event::Chunk(self.chunks.pop_front().unwrap_or(Err(eof())))
                }
                Action::Stop(result) => return result,
            };
            assert!(fits(&state, &event));
            let (next_state, next_action) = step(state, event);
            state = next_state;
            action = next_action;
        }
    }
}

fn render(reply: Reply<String, Process, ResourceUsage>) -> String {
    match reply {
        Reply::Done(r) => format!("Done({r:?})"),
        Reply::Opaque(r) => format!("Opaque({r:?})"),
        Reply::Power(r) => format!("Power({r:?})"),
        Reply::Usage(r) => format!("Usage({r:?})"),
        Reply::Processes(r) => format!("Processes({r:?})"),
        Reply::Observation(r) => format!("Observation({r:?})"),
        Reply::Preflight(r) => format!("Preflight({r:?})"),
        Reply::Package(r) => format!("Package({r:?})"),
        Reply::Refusal(text) => format!("Refusal({text})"),
    }
}

fn install_request(target: &str, size: u64) -> NodePackageRequest {
    NodePackageRequest::Install {
        target: target.to_string(),
        instance: Some(1),
        version: "1.2.3".to_string(),
        commit: "0123456789abcdef".to_string(),
        size,
        idempotency_key: "idem-1".to_string(),
        bootstrap_material: None,
        on_failure: FailurePolicy::Rollback,
    }
}

fn package_state(lifecycle: Lifecycle) -> PackageState {
    PackageState {
        version: "1.2.3".to_string(),
        commit: "0123456789abcdef".to_string(),
        lifecycle,
        bound_addrs: vec![],
    }
}

/// Two installed entries that differ only in `instance`.
fn installed_pair() -> Vec<InstalledPackage> {
    let entry = |instance: u32| InstalledPackage {
        target: "sensor".to_string(),
        instance: Some(instance),
        state: package_state(Lifecycle::Running),
    };
    vec![entry(1), entry(2)]
}

/// A payload of `len` bytes with a recognizable pattern.
fn payload(len: usize) -> Vec<u8> {
    (0..len).map(|i| (i % 251) as u8).collect()
}

fn flat_process() -> Process {
    Process {
        user: "flat-user".to_string(),
        cpu_usage: 5.0,
        mem_usage: 10.0,
        start_time: 200,
        command: "flat-cmd".to_string(),
    }
}

fn flat_usage() -> ResourceUsage {
    ResourceUsage {
        cpu_usage: 25.0,
        total_memory: 1_000,
        used_memory: 500,
        disk_used_bytes: 10_000,
        disk_available_bytes: 90_000,
    }
}

fn root_process() -> Process {
    Process {
        user: "root".to_string(),
        cpu_usage: 1.0,
        mem_usage: 2.0,
        start_time: 100,
        command: "init".to_string(),
    }
}

fn node_usage() -> ResourceUsage {
    ResourceUsage {
        cpu_usage: 50.0,
        total_memory: 16_000,
        used_memory: 8_000,
        disk_used_bytes: 100_000,
        disk_available_bytes: 400_000,
    }
}

fn power_request(req: NodePowerRequest) -> Agent {
    let mut agent = Agent::new()
        .request(106, b"power")
        .args(Args::Power(req));
    agent.power = Ok(NodePowerResponse::Initiated);
    agent
}

/// An agent that is sent an install of `target` and then `sent`, in chunks of
/// at most `chunk` bytes. Its verdict and its answer go by the target.
fn install_agent(target: &str, size: u64, sent: &[u8], chunk: usize) -> Agent {
    let mut agent = Agent::new()
        .request(109, b"install")
        .args(Args::Package(install_request(target, size)));
    agent.verdict = Ok(match target {
        "already" => InstallPreflight::AlreadyApplied,
        "nospace" => InstallPreflight::InsufficientDiskSpace {
            filesystem: "/opt".to_string(),
            required: 4_194_304,
            available: 1_024,
        },
        _ => InstallPreflight::Proceed,
    });
    agent.install = Ok(match target {
        "selfdisrupting" => NodePackageResponse::Accepted,
        _ => NodePackageResponse::Done,
    });
    for bytes in sent.chunks(chunk) {
        agent.chunks.push_back(Ok(bytes.to_vec()));
    }
    agent
}

impl Agent {
    /// Sends the status request of a service behind what is sent before.
    fn then_service_status(self) -> Self {
        self.request(100, b"status")
            .args(Args::Opaque("Status(nginx)".to_string()))
    }
}

/// Serves one unary package request and returns the reply.
fn package_roundtrip(step: Step, req: NodePackageRequest) -> Vec<String> {
    let mut agent = Agent::new().request(109, b"").args(Args::Package(req.clone()));
    agent.install = match req {
        NodePackageRequest::Remove { .. } => Ok(NodePackageResponse::Done),
        NodePackageRequest::ListInstalled => Ok(NodePackageResponse::Installed(installed_pair())),
        NodePackageRequest::Status { .. } => Ok(NodePackageResponse::State(package_state(
            Lifecycle::Stopped,
        ))),
        NodePackageRequest::Install { .. } => {
            Err("an install must never reach the unary method".to_string())
        }
    };
    assert_eq!(agent.run(step), Ok(()));
    assert_eq!(agent.called, vec!["NodePackage"]);
    agent.sent
}

fn package_reply(response: NodePackageResponse) -> Vec<String> {
    vec![render(Reply::Package(Ok(response)))]
}

#[test]
fn handle_unassigned_code_is_unknown() {
    let mut agent = Agent::new().request(111, b"");
    assert_eq!(agent.run(all()), Ok(()));
    assert_eq!(agent.sent, vec!["Refusal(unknown request code: 111)"]);
    assert!(agent.called.is_empty());
}

#[test]
fn handle_node_unassigned_code_is_unknown() {
    let mut agent = Agent::new().request(111, b"");
    assert_eq!(agent.run(node_only()), Ok(()));
    assert_eq!(agent.sent, vec!["Refusal(unknown request code: 111)"]);
}

#[test]
fn largest_number_is_refused_by_name() {
    let mut agent = Agent::new().request(u32::MAX, b"");
    assert_eq!(agent.run(all()), Ok(()));
    assert_eq!(agent.sent, vec!["Refusal(unknown request code: 4294967295)"]);
}

/// A flat code is refused by the node-only dispatch in the same way.
#[test]
fn handle_node_rejects_non_node_codes() {
    for number in 0..=22 {
        let mut agent = Agent::new().request(number, b"");
        assert_eq!(agent.run(node_only()), Ok(()));
        assert_eq!(
            agent.sent,
            vec![format!("Refusal(unknown request code: {number})")]
        );
        assert!(agent.called.is_empty());
    }
}

#[test]
fn node_power_handler_dispatch() {
    for step in [all(), node_only()] {
        let mut agent = power_request(NodePowerRequest::GracefulReboot);
        assert_eq!(agent.run(step), Ok(()));
        assert_eq!(agent.called, vec!["NodePower(GracefulReboot)"]);
        assert_eq!(agent.sent, vec!["Power(Ok(Initiated))"]);
    }
}

/// An immediate operation reaches the handler and is not answered; the next
/// request is.
fn immediate_power_is_not_answered(step: Step, req: NodePowerRequest) {
    let mut agent = power_request(req).request(50, b"");
    assert_eq!(agent.run(step), Ok(()));
    assert_eq!(agent.called, vec![format!("NodePower({req:?})")]);
    assert_eq!(agent.sent, vec!["Refusal(unknown request code: 50)"]);
}

#[test]
fn handle_node_power_reboot_no_response() {
    immediate_power_is_not_answered(node_only(), NodePowerRequest::Reboot);
}

#[test]
fn handle_node_power_shutdown_no_response() {
    immediate_power_is_not_answered(node_only(), NodePowerRequest::Shutdown);
}

#[test]
fn unsupported_handler_preserves_wire_error() {
    let mut agent = power_request(NodePowerRequest::GracefulReboot);
    agent.power = not_supported();
    assert_eq!(agent.run(all()), Ok(()));
    assert_eq!(agent.sent, vec!["Power(Err(\"not supported\"))"]);
}

#[test]
fn only_graceful_power_requests_are_answered() {
    assert!(!node_power_expects_response(&NodePowerRequest::Reboot));
    assert!(!node_power_expects_response(&NodePowerRequest::Shutdown));
    assert!(node_power_expects_response(&NodePowerRequest::GracefulReboot));
    assert!(node_power_expects_response(
        &NodePowerRequest::GracefulShutdown
    ));
}

/// The flat reboot is answered, unlike the node request that it stands for.
#[test]
fn flat_reboot_routes_through_node_power() {
    let mut agent = Agent::new().request(u32::from(RequestCode::Reboot), b"");
    agent.power = Ok(NodePowerResponse::Initiated);
    assert_eq!(agent.run(all()), Ok(()));
    assert_eq!(agent.called, vec!["NodePower(Reboot)"]);
    assert_eq!(agent.sent, vec!["Done(Ok(()))"]);
}

#[test]
fn flat_shutdown_routes_through_node_power() {
    let mut agent = Agent::new().request(u32::from(RequestCode::Shutdown), b"");
    agent.power = Ok(NodePowerResponse::Initiated);
    assert_eq!(agent.run(all()), Ok(()));
    assert_eq!(agent.called, vec!["NodePower(Shutdown)"]);
    assert_eq!(agent.sent, vec!["Done(Ok(()))"]);
}

#[test]
fn flat_power_keeps_the_error() {
    let mut agent = Agent::new().request(u32::from(RequestCode::Shutdown), b"");
    agent.power = Err("busy".to_string());
    assert_eq!(agent.run(all()), Ok(()));
    assert_eq!(agent.sent, vec!["Done(Err(\"busy\"))"]);
}

#[test]
fn flat_process_list_routes_through_node_observation() {
    let mut agent = Agent::new().request(u32::from(RequestCode::ProcessList), b"");
    agent.observation = Ok(NodeObservationResponse::ProcessList {
        processes: vec![root_process()],
    });
    assert_eq!(agent.run(all()), Ok(()));
    assert_eq!(agent.called, vec!["NodeObservation(ProcessList)"]);
    assert_eq!(
        agent.sent,
        vec![render(Reply::Processes(Ok(vec![root_process()])))]
    );
}

#[test]
fn flat_resource_usage_routes_through_node_observation() {
    let mut agent = Agent::new().request(u32::from(RequestCode::ResourceUsage), b"");
    agent.observation = Ok(NodeObservationResponse::ResourceUsage {
        hostname: "node-1".to_string(),
        resource_usage: node_usage(),
    });
    assert_eq!(agent.run(all()), Ok(()));
    assert_eq!(agent.called, vec!["NodeObservation(ResourceUsage)"]);
    assert_eq!(
        agent.sent,
        vec![render(Reply::Usage(Ok(("node-1".to_string(), node_usage()))))]
    );
}

#[test]
fn unexpected_observation_is_reported() {
    let mut agent = Agent::new().request(u32::from(RequestCode::ResourceUsage), b"");
    agent.observation = Ok(NodeObservationResponse::Uptime { seconds: 1 });
    assert_eq!(agent.run(all()), Ok(()));
    assert_eq!(
        agent.sent,
        vec!["Usage(Err(\"unexpected node_observation response: Ok(Uptime { seconds: 1 })\"))"]
    );

    let other: Result<Observation, String> =
        Ok(NodeObservationResponse::Uptime { seconds: 1 });
    assert_eq!(
        processes_reply(other, "Uptime"),
        Err("unexpected node_observation response: Uptime".to_string())
    );
    let failed: Result<Observation, String> = Err("no".to_string());
    assert_eq!(usage_reply(failed, "ignored"), Err("no".to_string()));
}

#[test]
fn node_observation_handler_dispatch() {
    let response = || NodeObservationResponse::ResourceUsage {
        hostname: "node-1".to_string(),
        resource_usage: ResourceUsage {
            cpu_usage: 10.0,
            total_memory: 8_000_000_000,
            used_memory: 4_000_000_000,
            disk_used_bytes: 50_000_000_000,
            disk_available_bytes: 200_000_000_000,
        },
    };
    for step in [all(), node_only()] {
        let mut agent = Agent::new()
            .request(107, b"obs")
            .args(Args::Observation(NodeObservationRequest::ResourceUsage));
        agent.observation = Ok(response());
        assert_eq!(agent.run(step), Ok(()));
        assert_eq!(agent.called, vec!["NodeObservation(ResourceUsage)"]);
        assert_eq!(agent.sent, vec![render(Reply::Observation(Ok(response())))]);
    }
}

/// Every code with arguments reaches its own method.
#[test]
fn codes_reach_their_methods() {
    let with_args = [
        (RequestCode::ReloadTi, Method::ReloadTi),
        (RequestCode::TorExitNodeList, Method::TorExitNodeList),
        (RequestCode::SamplingPolicyList, Method::SamplingPolicyList),
        (RequestCode::DeleteSamplingPolicy, Method::DeleteSamplingPolicy),
        (RequestCode::TrustedDomainList, Method::TrustedDomainList),
        (RequestCode::InternalNetworkList, Method::InternalNetworkList),
        (RequestCode::Allowlist, Method::Allowlist),
        (RequestCode::Blocklist, Method::Blocklist),
        (RequestCode::TrustedUserAgentList, Method::TrustedUserAgentList),
        (RequestCode::ReloadFilterRule, Method::UpdateTrafficFilterRules),
        (RequestCode::DeleteCustomerData, Method::DeleteCustomerData),
        (RequestCode::NodeService, Method::NodeService),
        (RequestCode::NodeNetworkInterface, Method::NodeNetworkInterface),
        (RequestCode::NodeHostname, Method::NodeHostname),
        (RequestCode::NodeTimeSync, Method::NodeTimeSync),
        (RequestCode::NodeLogging, Method::NodeLogging),
        (RequestCode::NodeRemoteAccess, Method::NodeRemoteAccess),
        (RequestCode::NodeVersion, Method::NodeVersion),
    ];
    for (code, method) in with_args {
        let mut agent = Agent::new()
            .request(u32::from(code), b"")
            .args(Args::Opaque("args".to_string()));
        agent.opaque = Ok("done".to_string());
        assert_eq!(agent.run(all()), Ok(()));
        assert_eq!(agent.called, vec![format!("{method:?}(args)")]);
        assert_eq!(agent.sent, vec!["Opaque(Ok(\"done\"))"]);
    }
    let bare = [
        (RequestCode::DnsStart, Method::DnsStart),
        (RequestCode::DnsStop, Method::DnsStop),
        (RequestCode::ReloadConfig, Method::ReloadConfig),
        (RequestCode::UpdateConfig, Method::UpdateConfig),
    ];
    for (code, method) in bare {
        let mut agent = Agent::new().request(u32::from(code), b"ignored");
        assert_eq!(agent.run(all()), Ok(()));
        assert_eq!(agent.called, vec![format!("{method:?}")]);
        assert_eq!(agent.sent, vec!["Opaque(Err(\"not supported\"))"]);
    }
}

#[test]
fn models_take_the_body_as_it_came() {
    let mut agent = Agent::new().request(u32::from(RequestCode::SemiSupervisedModels), &[1, 2]);
    assert_eq!(agent.run(all()), Ok(()));
    assert_eq!(agent.called, vec!["Models([1, 2])"]);
}

#[test]
fn echo_is_answered_without_the_handler() {
    let mut agent = Agent::new().request(u32::from(RequestCode::EchoRequest), b"");
    assert_eq!(agent.run(all()), Ok(()));
    assert!(agent.called.is_empty());
    assert_eq!(agent.sent, vec!["Done(Ok(()))"]);
}

fn parse_failure(code: RequestCode, body: &[u8]) -> HandlerError {
    let mut agent = Agent::new().request(u32::from(code), body);
    agent.args.push_back(Err(IoError::new(
        IoErrorKind::InvalidData,
        "malformed".to_string(),
    )));
    agent.run(all()).unwrap_err()
}

#[test]
fn reload_ti_parse_failure_is_invalid_args() {
    // A number in place of a text.
    let body = bincode::serde::encode_to_vec(42u32, bincode::config::standard()).unwrap();
    let err = parse_failure(RequestCode::ReloadTi, &body);
    assert_eq!(err.kind(), ProtocolErrorKind::InvalidArgs);
}

#[test]
fn node_power_parse_failure_is_invalid_args() {
    // A text in place of a power request.
    let body =
        bincode::serde::encode_to_vec("not-a-power-request", bincode::config::standard()).unwrap();
    let err = parse_failure(RequestCode::NodePower, &body);
    assert_eq!(err.kind(), ProtocolErrorKind::InvalidArgs);
    assert!(matches!(
        err,
        HandlerError::RecvError(IoError { kind: IoErrorKind::InvalidData, .. })
    ));
}

#[test]
fn other_parse_failures_are_not_classified() {
    let err = parse_failure(RequestCode::NodeHostname, b"bad");
    assert_eq!(err.kind(), ProtocolErrorKind::Other);
    assert_eq!(err.message(), "failed to receive request");
}

#[test]
fn failed_send_ends_the_dispatch() {
    let mut agent = Agent::new().request(50, b"").request(51, b"");
    agent.send_fails = true;
    let err = agent.run(all()).unwrap_err();
    assert_eq!(err, HandlerError::SendError(reset()));
    assert_eq!(err.kind(), ProtocolErrorKind::Other);
    assert_eq!(err.message(), "failed to send response");
    assert_eq!(agent.sent.len(), 1);
}

/// The classification of an error counts only where a request was received.
#[test]
fn send_errors_have_no_category() {
    let classified = reset().classified(ProtocolErrorKind::InvalidArgs);
    assert_eq!(
        HandlerError::SendError(classified.clone()).kind(),
        ProtocolErrorKind::Other
    );
    assert_eq!(
        HandlerError::RecvError(classified).kind(),
        ProtocolErrorKind::InvalidArgs
    );
}

#[test]
fn failed_receive_ends_the_dispatch() {
    let mut agent = Agent::new();
    agent.requests.push_back(Err(reset()));
    assert_eq!(
        agent.run(all()),
        Err(HandlerError::RecvError(reset()))
    );
    let mut agent = Agent::new();
    agent.requests.push_back(Err(eof()));
    assert_eq!(agent.run(all()), Ok(()));
}

#[test]
fn node_package_remove_roundtrip() {
    let req = NodePackageRequest::Remove {
        target: "sensor".to_string(),
        instance: Some(1),
        idempotency_key: "idem-1".to_string(),
    };
    let sent = package_roundtrip(all(), req);
    assert_eq!(sent, package_reply(NodePackageResponse::Done));
}

/// The answer carries entries that differ only in `instance`.
#[test]
fn node_package_list_installed_roundtrip() {
    let sent = package_roundtrip(all(), NodePackageRequest::ListInstalled);
    assert_eq!(
        sent,
        package_reply(NodePackageResponse::Installed(installed_pair()))
    );
}

#[test]
fn node_package_status_roundtrip() {
    let req = NodePackageRequest::Status {
        target: "sensor".to_string(),
        instance: Some(1),
    };
    let sent = package_roundtrip(all(), req);
    assert_eq!(
        sent,
        package_reply(NodePackageResponse::State(package_state(Lifecycle::Stopped)))
    );
}

#[test]
fn handle_node_package_remove_roundtrip() {
    let req = NodePackageRequest::Remove {
        target: "sensor".to_string(),
        instance: None,
        idempotency_key: "idem-2".to_string(),
    };
    let sent = package_roundtrip(node_only(), req);
    assert_eq!(sent, package_reply(NodePackageResponse::Done));
}

#[test]
fn handle_node_package_list_installed_roundtrip() {
    let sent = package_roundtrip(node_only(), NodePackageRequest::ListInstalled);
    assert_eq!(
        sent,
        package_reply(NodePackageResponse::Installed(installed_pair()))
    );
}

#[test]
fn handle_node_package_status_roundtrip() {
    let req = NodePackageRequest::Status {
        target: "sensor".to_string(),
        instance: Some(7),
    };
    let sent = package_roundtrip(node_only(), req);
    assert_eq!(
        sent,
        package_reply(NodePackageResponse::State(package_state(Lifecycle::Stopped)))
    );
}

#[test]
fn node_package_default_not_supported() {
    let mut agent = Agent::new()
        .request(109, b"")
        .args(Args::Package(NodePackageRequest::Status {
            target: "sensor".to_string(),
            instance: Some(1),
        }));
    assert_eq!(agent.run(all()), Ok(()));
    assert_eq!(agent.sent, vec!["Package(Err(\"not supported\"))"]);
}

#[test]
fn handle_node_package_default_not_supported() {
    let mut agent = Agent::new()
        .request(109, b"")
        .args(Args::Package(NodePackageRequest::ListInstalled));
    assert_eq!(agent.run(node_only()), Ok(()));
    assert_eq!(agent.sent, vec!["Package(Err(\"not supported\"))"]);
}

/// The payload arrives byte for byte, with a last chunk that is a partial one,
/// and is answered with exactly one terminal frame.
fn install_proceeds(step: Step) {
    let sent = payload(2_431);
    let mut agent = install_agent("sensor", sent.len() as u64, &sent, 1_000);
    assert_eq!(agent.run(step), Ok(()));
    assert_eq!(agent.called, vec!["Preflight", "Install(2431)"]);
    assert_eq!(agent.payload, sent);
    assert_eq!(
        agent.sent,
        vec!["Preflight(Ok(Proceed))", "Package(Ok(Done))"]
    );
}

#[test]
fn request_node_package_install_proceed() {
    install_proceeds(all());
}

#[test]
fn handle_node_package_install_proceed() {
    install_proceeds(node_only());
}

#[test]
fn request_node_package_install_accepted_is_terminal() {
    let sent = payload(600);
    let mut agent = install_agent("selfdisrupting", sent.len() as u64, &sent, 600);
    assert_eq!(agent.run(all()), Ok(()));
    assert_eq!(
        agent.sent,
        vec!["Preflight(Ok(Proceed))", "Package(Ok(Accepted))"]
    );
}

#[test]
fn node_package_install_already_applied_is_terminal() {
    let mut agent = install_agent("already", 4_194_304, &[], 1);
    assert_eq!(agent.run(all()), Ok(()));
    assert_eq!(agent.called, vec!["Preflight"]);
    assert_eq!(agent.sent, vec!["Preflight(Ok(AlreadyApplied))"]);
    assert!(
        agent.payload.is_empty(),
        "no payload should have been requested"
    );
}

#[test]
fn node_package_install_insufficient_disk_space_is_terminal() {
    let mut agent = install_agent("nospace", 4_194_304, &[], 1);
    assert_eq!(agent.run(all()), Ok(()));
    assert_eq!(agent.called, vec!["Preflight"]);
    assert_eq!(
        agent.sent,
        vec![render(Reply::Preflight(Ok(
            InstallPreflight::InsufficientDiskSpace {
                filesystem: "/opt".to_string(),
                required: 4_194_304,
                available: 1_024,
            }
        )))]
    );
}

#[test]
fn node_package_install_default_not_supported() {
    let mut agent = install_agent("sensor", 4_194_304, &[], 1);
    agent.verdict = not_supported();
    assert_eq!(agent.run(all()), Ok(()));
    assert_eq!(agent.called, vec!["Preflight"]);
    assert_eq!(agent.sent, vec!["Preflight(Err(\"not supported\"))"]);
}

/// Half of the declared payload, and then the end of the stream.
#[test]
fn node_package_install_truncated_payload() {
    let mut agent = install_agent("sensor", 4_096, &payload(2_048), 2_048);
    assert_eq!(agent.run(all()), Ok(()));
    assert_eq!(agent.sent.len(), 2);
    assert_eq!(agent.sent[0], "Preflight(Ok(Proceed))");
    assert_eq!(
        agent.sent[1],
        "Package(Err(\"failed to read the payload: end of file\"))"
    );
}

#[test]
fn node_package_install_reset_payload() {
    let mut agent = install_agent("sensor", 4_096, &payload(1_024), 1_024);
    agent.chunks.push_back(Err(reset()));
    assert_eq!(agent.run(all()), Ok(()));
    assert_eq!(
        agent.sent[1],
        "Package(Err(\"failed to read the payload: peer reset\"))"
    );
}

/// Twice the declared size in one chunk, and then nothing: the agent does not
/// wait for more.
#[test]
fn node_package_install_chunk_overruns_size() {
    let mut agent = install_agent("sensor", 1_000, &payload(2_000), 2_000);
    assert_eq!(agent.run(all()), Ok(()));
    assert!(agent.sent[1].contains("overruns"));
    assert_eq!(
        agent.sent[1],
        "Package(Err(\"failed to read the payload: package chunk of 2000 bytes overruns \
         the 1000 bytes still expected\"))"
    );
}

/// A handler that takes no notice of a failed read does not turn it into a
/// success.
#[test]
fn failed_read_is_never_a_success() {
    let mut agent = install_agent("sensor", 5, b"abc", 3);
    agent.reading = Reading::Careless;
    assert_eq!(agent.run(all()), Ok(()));
    assert_eq!(
        agent.sent[1],
        "Package(Err(\"failed to receive the package payload: \
         the package transfer already failed\"))"
    );
}

/// A read that fails while the rest is drained fails the install.
#[test]
fn failed_drain_fails_the_install() {
    let mut agent = install_agent("sensor", 5, b"abc", 3);
    agent.reading = Reading::Nothing;
    agent.chunks.push_back(Err(reset()));
    assert_eq!(agent.run(all()), Ok(()));
    assert_eq!(
        agent.sent[1],
        "Package(Err(\"failed to receive the package payload: peer reset\"))"
    );

    let mut agent = install_agent("sensor", 5, b"abcdef", 3);
    agent.reading = Reading::Nothing;
    assert_eq!(agent.run(all()), Ok(()));
    assert_eq!(
        agent.sent[1],
        "Package(Err(\"failed to receive the package payload: package chunk of 3 bytes \
         overruns the 2 bytes still expected\"))"
    );
}

/// The handler reads one chunk. The two that it leaves are drained, so that
/// the next request is served.
#[test]
fn node_package_install_unread_payload_is_drained() {
    let sent = payload(1_500);
    let mut agent =
        install_agent("sensor", sent.len() as u64, &sent, 500).then_service_status();
    agent.reading = Reading::One;
    assert_eq!(agent.run(all()), Ok(()));
    assert_eq!(agent.payload.len(), 500);
    assert!(agent.chunks.is_empty());
    assert_eq!(
        agent.sent,
        vec![
            "Preflight(Ok(Proceed))",
            "Package(Ok(Done))",
            "Opaque(Err(\"not supported\"))"
        ]
    );
}

/// The exchange consumes exactly its own bytes, so that the next request on
/// the same stream is served.
#[test]
fn node_package_install_leaves_the_loop_aligned() {
    let sent = payload(1_500);
    let mut agent =
        install_agent("sensor", sent.len() as u64, &sent, 512).then_service_status();
    assert_eq!(agent.run(all()), Ok(()));
    assert_eq!(agent.payload, sent);
    assert_eq!(agent.called[2], "NodeService(Status(nginx))");
    assert_eq!(
        agent.sent,
        vec![
            "Preflight(Ok(Proceed))",
            "Package(Ok(Done))",
            "Opaque(Err(\"not supported\"))"
        ]
    );
}

/// The reader stops at the declared size and leaves what follows alone.
#[test]
fn reader_leaves_what_follows_alone() {
    let mut agent = install_agent("sensor", 3, b"abcnex", 3).request(50, b"");
    assert_eq!(agent.run(node_only()), Ok(()));
    assert_eq!(agent.payload, b"abc");
    assert_eq!(agent.chunks.len(), 1);
    assert_eq!(agent.sent.len(), 3);
}

/// A handler that failed keeps its own message.
#[test]
fn failed_handler_keeps_its_message() {
    let mut agent = install_agent("sensor", 5, b"abc", 3);
    agent.reading = Reading::Nothing;
    agent.install = Err("bad signature".to_string());
    assert_eq!(agent.run(all()), Ok(()));
    assert_eq!(agent.sent[1], "Package(Err(\"bad signature\"))");
    assert_eq!(
        install_reply(Err("own".to_string()), Some("cause".to_string())),
        Err("own".to_string())
    );
    assert_eq!(
        install_reply(Ok(NodePackageResponse::Done), None),
        Ok(NodePackageResponse::Done)
    );
}

#[test]
fn empty_package_needs_no_chunk() {
    let mut agent = install_agent("sensor", 0, &[], 1);
    assert_eq!(agent.run(all()), Ok(()));
    assert_eq!(agent.sent[1], "Package(Ok(Done))");
}

#[test]
fn reader_accounts_for_every_byte() {
    let mut reader = PackageReader::new(4);
    assert_eq!(reader.size(), 4);
    assert_eq!(reader.read_chunk(Ok(vec![1, 2, 3])), Ok(vec![1, 2, 3]));
    assert_eq!(reader.remaining(), 1);
    assert_eq!(reader.read_chunk(Ok(vec![])), Ok(vec![]));
    assert_eq!(reader.next_chunk(), NextChunk::Read);
    assert_eq!(reader.read_chunk(Ok(vec![4])), Ok(vec![4]));
    assert_eq!(reader.next_chunk(), NextChunk::Complete);
}

/// A failed read ends the transfer: every later call fails without touching
/// the stream.
#[test]
fn failed_reader_stays_failed() {
    let mut reader = PackageReader::new(4);
    let err = reader.read_chunk(Ok(vec![0; 5])).unwrap_err();
    assert_eq!(err.kind, IoErrorKind::InvalidData);
    assert_eq!(
        err.message,
        "package chunk of 5 bytes overruns the 4 bytes still expected"
    );
    assert_eq!(reader.remaining(), 4);
    assert_eq!(
        reader.next_chunk(),
        NextChunk::Failed(IoError::new(
            IoErrorKind::InvalidData,
            "the package transfer already failed".to_string()
        ))
    );
}

#[test]
fn truncated_payload_is_an_end_of_file() {
    assert_eq!(truncated_payload(eof()), eof());
    assert_eq!(
        truncated_payload(reset()),
        IoError::new(IoErrorKind::UnexpectedEof, "peer reset".to_string())
    );
    let mut reader = PackageReader::new(4);
    let err = reader.read_chunk(Err(reset())).unwrap_err();
    assert_eq!(err.kind, IoErrorKind::UnexpectedEof);
    assert_eq!(err.message, "peer reset");
}

/// A node power request falls back to the flat method and is not answered.
fn immediate_power_falls_back(req: NodePowerRequest, flat: &str) {
    let mut agent = power_request(req);
    agent.flat_only = true;
    assert_eq!(agent.run(all()), Ok(()));
    assert_eq!(agent.called, vec![flat]);
    assert!(agent.sent.is_empty());
}

#[test]
fn node_power_reboot_delegates_to_flat() {
    immediate_power_falls_back(NodePowerRequest::Reboot, "Reboot");
}

#[test]
fn node_power_shutdown_delegates_to_flat() {
    immediate_power_falls_back(NodePowerRequest::Shutdown, "Shutdown");
}

#[test]
fn graceful_power_has_no_flat_method() {
    for req in [
        NodePowerRequest::GracefulReboot,
        NodePowerRequest::GracefulShutdown,
    ] {
        let mut agent = power_request(req);
        agent.flat_only = true;
        assert_eq!(agent.run(all()), Ok(()));
        assert_eq!(agent.called, vec!["NotSupported"]);
        assert_eq!(agent.sent, vec!["Power(Err(\"not supported\"))"]);
    }
    assert_eq!(
        fallback::power_from_flat(Err("no".to_string())),
        Err("no".to_string())
    );
}

/// A node observation falls back to the flat method.
fn observation_falls_back(req: NodeObservationRequest) -> Vec<String> {
    let mut agent = Agent::new().request(107, b"").args(Args::Observation(req));
    agent.flat_only = true;
    assert_eq!(agent.run(all()), Ok(()));
    agent.sent
}

#[test]
fn node_observation_process_list_delegates_to_flat() {
    assert_eq!(
        observation_falls_back(NodeObservationRequest::ProcessList),
        vec![render(Reply::Observation(Ok(
            NodeObservationResponse::ProcessList {
                processes: vec![flat_process()],
            }
        )))]
    );
}

#[test]
fn node_observation_resource_usage_delegates_to_flat() {
    assert_eq!(
        observation_falls_back(NodeObservationRequest::ResourceUsage),
        vec![render(Reply::Observation(Ok(
            NodeObservationResponse::ResourceUsage {
                hostname: "flat-host".to_string(),
                resource_usage: flat_usage(),
            }
        )))]
    );
}

#[test]
fn uptime_has_no_flat_method() {
    assert_eq!(
        observation_falls_back(NodeObservationRequest::Uptime),
        vec!["Observation(Err(\"not supported\"))"]
    );
}

/// A flat request that falls back is answered as the flat method answered.
#[test]
fn flat_answers_are_kept() {
    let usage = || Ok(("flat-host".to_string(), flat_usage()));
    let answer: Result<Observation, String> = fallback::usage_from_flat(usage());
    assert_eq!(usage_reply(answer, ""), usage());
    let answer: Result<Observation, String> =
        fallback::processes_from_flat(Ok(vec![flat_process()]));
    assert_eq!(processes_reply(answer, ""), Ok(vec![flat_process()]));
}

#[test]
fn unfitting_events_are_told_apart() {
    type E = Happened;
    assert!(!fits(&State::Receiving, &E::Sent(Ok(()))));
    assert!(!fits(&State::Stopped, &E::Sent(Ok(()))));
    assert!(!fits(
        &State::Parsing(RequestCode::NodePower),
        &E::Parsed(Ok(Args::Opaque("x".to_string())))
    ));
    assert!(!fits(
        &State::Calling(Pending::Package),
        &E::Handled(Answer::Power(Ok(NodePowerResponse::Initiated)))
    ));
    assert!(!fits(
        &State::Installing(3),
        &E::Handled(Answer::Installed {
            result: Ok(NodePackageResponse::Done),
            reader: PackageReader::new(4)
        })
    ));
}
