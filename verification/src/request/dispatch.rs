//! The dispatch of requests, as a state machine.
//!
//! The machine is handed what happened last and answers with what is to be
//! done next: receive a request, parse its arguments, call the handler, send
//! a response, drain a payload, or stop. Whoever runs it performs the action
//! and hands back its outcome.
//!
//! The arguments and the answers that dispatch does not look into are
//! carried through as they are: `A` stands for parsed arguments, `R` for an
//! answer, `P` for the reading of one process and `U` for a reading of the
//! resource usage.

use vstd::pervasive::unreached;
use vstd::prelude::*;

use super::package::{NextChunk, PackageReader};
use super::{node_power_expects_response, HandlerError};
use crate::client::RequestCode;
use crate::protocol_error::{IoError, IoErrorKind, ProtocolErrorKind};
use crate::text::decimal_string;
use crate::types::node::{
    InstallPreflight, NodeObservationRequest, NodeObservationResponse, NodePackageRequest,
    NodePackageResponse, NodePowerRequest, NodePowerResponse,
};

verus! {

use super::package::{
    after_chunk, fresh_transfer, is_complete, overrun_text, wants_chunk, Transfer,
};
use super::expects_response;
use crate::client::{code_of, is_node_code};
use crate::text::decimal;

/// A handler method whose arguments and answer dispatch does not look into.
#[derive(Clone, Copy, Debug, Eq, PartialEq, Structural)]
pub enum Method {
    DnsStart,
    DnsStop,
    ReloadConfig,
    UpdateConfig,
    ReloadTi,
    TorExitNodeList,
    SamplingPolicyList,
    DeleteSamplingPolicy,
    TrustedDomainList,
    InternalNetworkList,
    Allowlist,
    Blocklist,
    TrustedUserAgentList,
    UpdateTrafficFilterRules,
    DeleteCustomerData,
    NodeService,
    NodeNetworkInterface,
    NodeHostname,
    NodeTimeSync,
    NodeLogging,
    NodeRemoteAccess,
    NodeVersion,
}

/// How the requests with one code are served.
#[derive(Clone, Copy, Debug, Eq, PartialEq, Structural)]
pub enum Route {
    /// By a method without arguments.
    Bare(Method),
    /// By a method with arguments.
    WithArgs(Method),
    /// By the model update, which takes the body as it came.
    Models,
    /// By the power control, with the request in the body.
    Power,
    /// By the observation, with the request in the body.
    Observation,
    /// By the package management, with the request in the body.
    Package,
    /// By the power control, with the request that the code stands for.
    FlatPower(NodePowerRequest),
    /// By the observation, with the request that the code stands for.
    FlatObservation(NodeObservationRequest),
    /// By an empty answer, without the handler.
    Echo,
    /// Not at all.
    Refuse,
}

/// How the requests with `code` are served.
pub open spec fn route_of(code: RequestCode) -> Route {
    match code {
        RequestCode::DnsStart => Route::Bare(Method::DnsStart),
        RequestCode::DnsStop => Route::Bare(Method::DnsStop),
        RequestCode::ReloadConfig => Route::Bare(Method::ReloadConfig),
        RequestCode::UpdateConfig => Route::Bare(Method::UpdateConfig),
        RequestCode::ReloadTi => Route::WithArgs(Method::ReloadTi),
        RequestCode::TorExitNodeList => Route::WithArgs(Method::TorExitNodeList),
        RequestCode::SamplingPolicyList => Route::WithArgs(Method::SamplingPolicyList),
        RequestCode::DeleteSamplingPolicy => Route::WithArgs(Method::DeleteSamplingPolicy),
        RequestCode::TrustedDomainList => Route::WithArgs(Method::TrustedDomainList),
        RequestCode::InternalNetworkList => Route::WithArgs(Method::InternalNetworkList),
        RequestCode::Allowlist => Route::WithArgs(Method::Allowlist),
        RequestCode::Blocklist => Route::WithArgs(Method::Blocklist),
        RequestCode::TrustedUserAgentList => Route::WithArgs(Method::TrustedUserAgentList),
        RequestCode::ReloadFilterRule => Route::WithArgs(Method::UpdateTrafficFilterRules),
        RequestCode::DeleteCustomerData => Route::WithArgs(Method::DeleteCustomerData),
        RequestCode::NodeService => Route::WithArgs(Method::NodeService),
        RequestCode::NodeNetworkInterface => Route::WithArgs(Method::NodeNetworkInterface),
        RequestCode::NodeHostname => Route::WithArgs(Method::NodeHostname),
        RequestCode::NodeTimeSync => Route::WithArgs(Method::NodeTimeSync),
        RequestCode::NodeLogging => Route::WithArgs(Method::NodeLogging),
        RequestCode::NodeRemoteAccess => Route::WithArgs(Method::NodeRemoteAccess),
        RequestCode::NodeVersion => Route::WithArgs(Method::NodeVersion),
        RequestCode::NodePower => Route::Power,
        RequestCode::NodeObservation => Route::Observation,
        RequestCode::NodePackage => Route::Package,
        RequestCode::SemiSupervisedModels => Route::Models,
        RequestCode::Reboot => Route::FlatPower(NodePowerRequest::Reboot),
        RequestCode::Shutdown => Route::FlatPower(NodePowerRequest::Shutdown),
        RequestCode::ResourceUsage => Route::FlatObservation(
            NodeObservationRequest::ResourceUsage,
        ),
        RequestCode::ProcessList => Route::FlatObservation(NodeObservationRequest::ProcessList),
        RequestCode::EchoRequest => Route::Echo,
        RequestCode::Unknown => Route::Refuse,
    }
}

/// Returns how the requests with `code` are served.
pub fn route(code: RequestCode) -> (r: Route)
    ensures
        r == route_of(code),
{
    match code {
        RequestCode::DnsStart => Route::Bare(Method::DnsStart),
        RequestCode::DnsStop => Route::Bare(Method::DnsStop),
        RequestCode::ReloadConfig => Route::Bare(Method::ReloadConfig),
        RequestCode::UpdateConfig => Route::Bare(Method::UpdateConfig),
        RequestCode::ReloadTi => Route::WithArgs(Method::ReloadTi),
        RequestCode::TorExitNodeList => Route::WithArgs(Method::TorExitNodeList),
        RequestCode::SamplingPolicyList => Route::WithArgs(Method::SamplingPolicyList),
        RequestCode::DeleteSamplingPolicy => Route::WithArgs(Method::DeleteSamplingPolicy),
        RequestCode::TrustedDomainList => Route::WithArgs(Method::TrustedDomainList),
        RequestCode::InternalNetworkList => Route::WithArgs(Method::InternalNetworkList),
        RequestCode::Allowlist => Route::WithArgs(Method::Allowlist),
        RequestCode::Blocklist => Route::WithArgs(Method::Blocklist),
        RequestCode::TrustedUserAgentList => Route::WithArgs(Method::TrustedUserAgentList),
        RequestCode::ReloadFilterRule => Route::WithArgs(Method::UpdateTrafficFilterRules),
        RequestCode::DeleteCustomerData => Route::WithArgs(Method::DeleteCustomerData),
        RequestCode::NodeService => Route::WithArgs(Method::NodeService),
        RequestCode::NodeNetworkInterface => Route::WithArgs(Method::NodeNetworkInterface),
        RequestCode::NodeHostname => Route::WithArgs(Method::NodeHostname),
        RequestCode::NodeTimeSync => Route::WithArgs(Method::NodeTimeSync),
        RequestCode::NodeLogging => Route::WithArgs(Method::NodeLogging),
        RequestCode::NodeRemoteAccess => Route::WithArgs(Method::NodeRemoteAccess),
        RequestCode::NodeVersion => Route::WithArgs(Method::NodeVersion),
        RequestCode::NodePower => Route::Power,
        RequestCode::NodeObservation => Route::Observation,
        RequestCode::NodePackage => Route::Package,
        RequestCode::SemiSupervisedModels => Route::Models,
        RequestCode::Reboot => Route::FlatPower(NodePowerRequest::Reboot),
        RequestCode::Shutdown => Route::FlatPower(NodePowerRequest::Shutdown),
        RequestCode::ResourceUsage => Route::FlatObservation(
            NodeObservationRequest::ResourceUsage,
        ),
        RequestCode::ProcessList => Route::FlatObservation(NodeObservationRequest::ProcessList),
        RequestCode::EchoRequest => Route::Echo,
        RequestCode::Unknown => Route::Refuse,
    }
}

/// The requests that a dispatch serves.
#[derive(Clone, Copy, Debug, Eq, PartialEq, Structural)]
pub enum Scope {
    /// Flat and node requests.
    All,
    /// Node requests only.
    NodeOnly,
}

/// Whether requests with `code` are served within `scope`.
pub open spec fn is_served(scope: Scope, code: RequestCode) -> bool {
    code != RequestCode::Unknown && (scope == Scope::NodeOnly ==> is_node_code(code))
}

/// Whether a failure to parse the arguments of `code` is classified as
/// invalid arguments.
pub open spec fn classifies_parse_failure(code: RequestCode) -> bool {
    code == RequestCode::ReloadTi || code == RequestCode::NodePower
}

/// The parsed arguments of a request.
#[derive(Debug)]
pub enum Args<A> {
    Opaque(A),
    Power(NodePowerRequest),
    Observation(NodeObservationRequest),
    Package(NodePackageRequest),
}

/// The answer of the handler.
#[derive(Debug)]
pub enum Answer<R, P, U> {
    Opaque(Result<R, String>),
    Power(Result<NodePowerResponse, String>),
    /// The answer to an observation, with the text that it renders as.
    Observation { result: Result<NodeObservationResponse<P, U>, String>, rendering: String },
    Preflight(Result<InstallPreflight, String>),
    Package(Result<NodePackageResponse, String>),
    /// The answer to an install, with the reader of its payload.
    Installed { result: Result<NodePackageResponse, String>, reader: PackageReader },
}

/// What happened.
#[derive(Debug)]
pub enum Event<A, R, P, U> {
    /// A request came in, as its number and its body, or the receive failed.
    Received(Result<(u32, Vec<u8>), IoError>),
    /// The arguments were parsed.
    Parsed(Result<Args<A>, IoError>),
    /// The handler answered.
    Handled(Answer<R, P, U>),
    /// A response was sent.
    Sent(Result<(), IoError>),
    /// A chunk of a payload was read from the stream.
    Chunk(Result<Vec<u8>, IoError>),
}

/// A call of the handler.
#[derive(Debug)]
pub enum Call<A> {
    Bare(Method),
    WithArgs(Method, A),
    Models(Vec<u8>),
    NodePower(NodePowerRequest),
    NodeObservation(NodeObservationRequest),
    NodePackage(NodePackageRequest),
    /// The preflight of the install request that the state holds.
    Preflight,
    /// The install, with a reader for its payload.
    Install(NodePackageRequest, PackageReader),
}

/// A response frame.
#[derive(Debug)]
pub enum Reply<R, P, U> {
    Done(Result<(), String>),
    Opaque(Result<R, String>),
    Power(Result<NodePowerResponse, String>),
    Usage(Result<(String, U), String>),
    Processes(Result<Vec<P>, String>),
    Observation(Result<NodeObservationResponse<P, U>, String>),
    Preflight(Result<InstallPreflight, String>),
    Package(Result<NodePackageResponse, String>),
    /// The refusal of a code that is not served.
    Refusal(String),
}

/// What is to be done next.
#[derive(Debug)]
pub enum Action<A, R, P, U> {
    Receive,
    /// Parse the body as the arguments of the code.
    Parse(RequestCode, Vec<u8>),
    Call(Call<A>),
    Send(Reply<R, P, U>),
    /// Read a chunk of the payload that the handler left behind.
    ReadChunk,
    Stop(Result<(), HandlerError>),
}

/// How the answer of the handler becomes a response.
#[derive(Clone, Copy, Debug, Eq, PartialEq, Structural)]
pub enum Pending {
    Opaque,
    Power { answered: bool },
    FlatPower,
    Observation,
    FlatUsage,
    FlatProcesses,
    Package,
}

/// Where the dispatch is.
#[derive(Debug)]
pub enum State {
    /// A request is awaited.
    Receiving,
    /// The arguments of the code are being parsed.
    Parsing(RequestCode),
    /// The handler is at work.
    Calling(Pending),
    /// The handler judges the install request.
    Preflighting(NodePackageRequest),
    /// The verdict is being sent. The install goes on with a request.
    Judged(Option<NodePackageRequest>),
    /// The handler installs a package of so many bytes.
    Installing(u64),
    /// What the handler left of the payload is being drained.
    Draining { result: Result<NodePackageResponse, String>, reader: PackageReader },
    /// A response is being sent.
    Responding,
    /// The dispatch is over.
    Stopped,
}

/// Whether the arguments have the form that the route calls for.
pub open spec fn args_fit<A>(r: Route, args: Args<A>) -> bool {
    match args {
        Args::Opaque(_) => r is WithArgs,
        Args::Power(_) => r == Route::Power,
        Args::Observation(_) => r == Route::Observation,
        Args::Package(_) => r == Route::Package,
    }
}

/// Whether the answer has the form that is awaited.
pub open spec fn answer_fits<R, P, U>(pending: Pending, answer: Answer<R, P, U>) -> bool {
    match answer {
        Answer::Opaque(_) => pending is Opaque,
        Answer::Power(_) => pending is Power || pending is FlatPower,
        Answer::Observation { .. } => pending is Observation || pending is FlatUsage
            || pending is FlatProcesses,
        Answer::Preflight(_) => false,
        Answer::Package(_) => pending is Package,
        Answer::Installed { .. } => false,
    }
}

/// Whether `event` is the outcome of what was to be done in `state`.
pub open spec fn accepts<A, R, P, U>(state: State, event: Event<A, R, P, U>) -> bool {
    match state {
        State::Receiving => event is Received,
        State::Parsing(code) => event matches Event::Parsed(r) && (r matches Ok(args) ==> args_fit(
            route_of(code),
            args,
        )),
        State::Calling(pending) => event matches Event::Handled(answer) && answer_fits(
            pending,
            answer,
        ),
        State::Preflighting(req) => {
            &&& req is Install
            &&& event matches Event::Handled(answer)
            &&& answer is Preflight
        },
        State::Judged(next) => (next matches Some(req) ==> req is Install) && event is Sent,
        State::Installing(size) => event matches Event::Handled(
            Answer::Installed { reader, .. },
        ) && reader@.size == size,
        State::Draining { reader, .. } => wants_chunk(reader@) && event is Chunk,
        State::Responding => event is Sent,
        State::Stopped => false,
    }
}

/// The text of the refusal of a request number.
pub open spec fn refusal_text(number: u32) -> Seq<char> {
    "unknown request code: "@ + decimal(number as nat)
}

/// The text of an answer to an observation that is not of the kind that was
/// asked for.
pub open spec fn unexpected_text(rendering: Seq<char>) -> Seq<char> {
    "unexpected node_observation response: "@ + rendering
}

/// The text of a payload that could not be received.
pub open spec fn payload_text(cause: Seq<char>) -> Seq<char> {
    "failed to receive the package payload: "@ + cause
}

/// What follows a request that came in.
pub open spec fn on_request<A, R, P, U>(
    scope: Scope,
    number: u32,
    body: Vec<u8>,
    post: State,
    action: Action<A, R, P, U>,
) -> bool {
    let code = code_of(number);
    if !is_served(scope, code) {
        &&& post == State::Responding
        &&& action matches Action::Send(Reply::Refusal(text))
        &&& text@ == refusal_text(number)
    } else {
        match route_of(code) {
            Route::Bare(method) => post == State::Calling(Pending::Opaque) && action
                == Action::<A, R, P, U>::Call(Call::Bare(method)),
            Route::WithArgs(_) | Route::Power | Route::Observation | Route::Package => post
                == State::Parsing(code) && action == Action::<A, R, P, U>::Parse(code, body),
            Route::Models => post == State::Calling(Pending::Opaque) && action
                == Action::<A, R, P, U>::Call(Call::Models(body)),
            Route::FlatPower(req) => post == State::Calling(Pending::FlatPower) && action
                == Action::<A, R, P, U>::Call(Call::NodePower(req)),
            Route::FlatObservation(req) => post == State::Calling(
                if req == NodeObservationRequest::ResourceUsage {
                    Pending::FlatUsage
                } else {
                    Pending::FlatProcesses
                },
            ) && action == Action::<A, R, P, U>::Call(Call::NodeObservation(req)),
            Route::Echo => post == State::Responding && action == Action::<A, R, P, U>::Send(
                Reply::Done(Ok(())),
            ),
            Route::Refuse => false,
        }
    }
}

/// What follows parsed arguments.
pub open spec fn on_args<A, R, P, U>(
    code: RequestCode,
    args: Args<A>,
    post: State,
    action: Action<A, R, P, U>,
) -> bool {
    match args {
        Args::Opaque(a) => post == State::Calling(Pending::Opaque) && action == Action::<
            A,
            R,
            P,
            U,
        >::Call(Call::WithArgs(route_of(code)->WithArgs_0, a)),
        Args::Power(req) => post == State::Calling(
            Pending::Power { answered: expects_response(req) },
        ) && action == Action::<A, R, P, U>::Call(Call::NodePower(req)),
        Args::Observation(req) => post == State::Calling(Pending::Observation) && action
            == Action::<A, R, P, U>::Call(Call::NodeObservation(req)),
        Args::Package(req) => if req is Install {
            post == State::Preflighting(req) && action == Action::<A, R, P, U>::Call(
                Call::Preflight,
            )
        } else {
            post == State::Calling(Pending::Package) && action == Action::<A, R, P, U>::Call(
                Call::NodePackage(req),
            )
        },
    }
}

/// The response to a flat usage request.
pub open spec fn is_usage_reply<P, U>(
    result: Result<NodeObservationResponse<P, U>, String>,
    rendering: Seq<char>,
    reply: Result<(String, U), String>,
) -> bool {
    match result {
        Ok(NodeObservationResponse::ResourceUsage { hostname, resource_usage }) => reply == Ok::<
            (String, U),
            String,
        >((hostname, resource_usage)),
        Ok(_) => reply matches Err(text) && text@ == unexpected_text(rendering),
        Err(text) => reply == Err::<(String, U), String>(text),
    }
}

/// The response to a flat process-list request.
pub open spec fn is_processes_reply<P, U>(
    result: Result<NodeObservationResponse<P, U>, String>,
    rendering: Seq<char>,
    reply: Result<Vec<P>, String>,
) -> bool {
    match result {
        Ok(NodeObservationResponse::ProcessList { processes }) => reply == Ok::<Vec<P>, String>(
            processes,
        ),
        Ok(_) => reply matches Err(text) && text@ == unexpected_text(rendering),
        Err(text) => reply == Err::<Vec<P>, String>(text),
    }
}

/// What follows an answer of the handler.
pub open spec fn on_answer<A, R, P, U>(
    pending: Pending,
    answer: Answer<R, P, U>,
    post: State,
    action: Action<A, R, P, U>,
) -> bool {
    match answer {
        Answer::Opaque(result) => post == State::Responding && action == Action::<A, R, P, U>::Send(
            Reply::Opaque(result),
        ),
        Answer::Power(result) => if pending == (Pending::Power { answered: false }) {
            post == State::Receiving && action == Action::<A, R, P, U>::Receive
        } else if pending is FlatPower {
            post == State::Responding && action == Action::<A, R, P, U>::Send(
                Reply::Done(
                    match result {
                        Ok(_) => Ok(()),
                        Err(text) => Err(text),
                    },
                ),
            )
        } else {
            post == State::Responding && action == Action::<A, R, P, U>::Send(Reply::Power(result))
        },
        Answer::Observation { result, rendering } => {
            &&& post == State::Responding
            &&& if pending is FlatUsage {
                action matches Action::Send(Reply::Usage(reply)) && is_usage_reply(
                    result,
                    rendering@,
                    reply,
                )
            } else if pending is FlatProcesses {
                action matches Action::Send(Reply::Processes(reply)) && is_processes_reply(
                    result,
                    rendering@,
                    reply,
                )
            } else {
                action == Action::<A, R, P, U>::Send(Reply::Observation(result))
            }
        },
        Answer::Package(result) => post == State::Responding && action == Action::<
            A,
            R,
            P,
            U,
        >::Send(Reply::Package(result)),
        Answer::Preflight(_) => false,
        Answer::Installed { .. } => false,
    }
}

/// The payload length that an install request declares.
pub open spec fn declared_size(req: NodePackageRequest) -> nat {
    match req {
        NodePackageRequest::Install { size, .. } => size as nat,
        _ => 0,
    }
}

/// The terminal response of an install, given the text of a failure to
/// receive the payload. A handler that failed keeps its own message; a
/// payload that could not be received turns a success into a failure.
pub open spec fn is_install_reply(
    result: Result<NodePackageResponse, String>,
    failure: Option<Seq<char>>,
    reply: Result<NodePackageResponse, String>,
) -> bool {
    if result is Ok && failure is Some {
        reply matches Err(text) && text@ == payload_text(failure->0)
    } else {
        reply == result
    }
}

/// What follows when the terminal response of an install is due, but for a
/// payload that is left to be drained. `failure` is the text of a read that
/// just failed.
pub open spec fn on_drain<A, R, P, U>(
    result: Result<NodePackageResponse, String>,
    transfer: Transfer,
    failure: Seq<char>,
    post: State,
    action: Action<A, R, P, U>,
) -> bool {
    if wants_chunk(transfer) {
        &&& post matches State::Draining { result: same, reader }
        &&& same == result
        &&& reader@ == transfer
        &&& action == Action::<A, R, P, U>::ReadChunk
    } else {
        &&& post == State::Responding
        &&& action matches Action::Send(Reply::Package(reply))
        &&& is_install_reply(
            result,
            if is_complete(transfer) {
                None
            } else {
                Some(failure)
            },
            reply,
        )
    }
}

/// The transfer after a chunk was read, or the read of one failed.
pub open spec fn after_read(t: Transfer, read: Result<Vec<u8>, IoError>) -> Transfer {
    match read {
        Ok(chunk) => after_chunk(t, chunk@.len()),
        Err(_) => Transfer { failed: true, ..t },
    }
}

/// The text of a read that failed.
pub open spec fn read_failure_text(t: Transfer, read: Result<Vec<u8>, IoError>) -> Seq<char> {
    match read {
        Ok(chunk) => overrun_text(chunk@.len(), t.remaining),
        Err(cause) => cause.message@,
    }
}

/// What follows the outcome of sending a response.
pub open spec fn on_sent<A, R, P, U>(
    sent: Result<(), IoError>,
    post: State,
    action: Action<A, R, P, U>,
) -> bool {
    match sent {
        Ok(()) => post == State::Receiving && action == Action::<A, R, P, U>::Receive,
        Err(e) => post == State::Stopped && action == Action::<A, R, P, U>::Stop(
            Err(HandlerError::SendError(e)),
        ),
    }
}

/// Whether `event` in `pre` leads to `post` with `action` to be done.
pub open spec fn transition<A, R, P, U>(
    scope: Scope,
    pre: State,
    event: Event<A, R, P, U>,
    post: State,
    action: Action<A, R, P, U>,
) -> bool {
    match (pre, event) {
        (State::Receiving, Event::Received(Err(e))) => {
            &&& post == State::Stopped
            &&& action == Action::<A, R, P, U>::Stop(
                if e.kind == IoErrorKind::UnexpectedEof {
                    Ok(())
                } else {
                    Err(HandlerError::RecvError(e))
                },
            )
        },
        (State::Receiving, Event::Received(Ok((number, body)))) => on_request(
            scope,
            number,
            body,
            post,
            action,
        ),
        (State::Parsing(code), Event::Parsed(Err(e))) => {
            &&& post == State::Stopped
            &&& action == Action::<A, R, P, U>::Stop(
                Err(
                    HandlerError::RecvError(
                        if classifies_parse_failure(code) {
                            IoError { class: Some(ProtocolErrorKind::InvalidArgs), ..e }
                        } else {
                            e
                        },
                    ),
                ),
            )
        },
        (State::Parsing(code), Event::Parsed(Ok(args))) => on_args(code, args, post, action),
        (State::Calling(pending), Event::Handled(answer)) => on_answer(
            pending,
            answer,
            post,
            action,
        ),
        (State::Preflighting(req), Event::Handled(Answer::Preflight(verdict))) => {
            &&& post == State::Judged(
                if verdict == Ok::<InstallPreflight, String>(InstallPreflight::Proceed) {
                    Some(req)
                } else {
                    None
                },
            )
            &&& action == Action::<A, R, P, U>::Send(Reply::Preflight(verdict))
        },
        (State::Judged(Some(req)), Event::Sent(Ok(()))) => {
            &&& post matches State::Installing(size)
            &&& size == declared_size(req)
            &&& action matches Action::Call(Call::Install(same, reader))
            &&& same == req
            &&& reader@ == fresh_transfer(declared_size(req))
        },
        (State::Judged(_), Event::Sent(sent)) => on_sent(sent, post, action),
        (State::Installing(_), Event::Handled(Answer::Installed { result, reader })) => on_drain(
            result,
            reader@,
            "the package transfer already failed"@,
            post,
            action,
        ),
        (State::Draining { result, reader }, Event::Chunk(read)) => on_drain(
            result,
            after_read(reader@, read),
            read_failure_text(reader@, read),
            post,
            action,
        ),
        (State::Responding, Event::Sent(sent)) => on_sent(sent, post, action),
        _ => false,
    }
}

/// Returns whether `event` is the outcome of what was to be done in `state`.
pub fn fits<A, R, P, U>(state: &State, event: &Event<A, R, P, U>) -> (r: bool)
    ensures
        r == accepts(*state, *event),
{
    match (state, event) {
        (State::Receiving, Event::Received(_)) => true,
        (State::Parsing(_), Event::Parsed(Err(_))) => true,
        (State::Parsing(code), Event::Parsed(Ok(args))) => match (route(*code), args) {
            (Route::WithArgs(_), Args::Opaque(_)) => true,
            (Route::Power, Args::Power(_)) => true,
            (Route::Observation, Args::Observation(_)) => true,
            (Route::Package, Args::Package(_)) => true,
            _ => false,
        },
        (State::Calling(pending), Event::Handled(answer)) => match (pending, answer) {
            (Pending::Opaque, Answer::Opaque(_)) => true,
            (Pending::Power { .. } | Pending::FlatPower, Answer::Power(_)) => true,
            (
                Pending::Observation | Pending::FlatUsage | Pending::FlatProcesses,
                Answer::Observation { .. },
            ) => true,
            (Pending::Package, Answer::Package(_)) => true,
            _ => false,
        },
        (State::Preflighting(req), Event::Handled(Answer::Preflight(_))) => {
            matches!(req, NodePackageRequest::Install { .. })
        },
        (State::Judged(None), Event::Sent(_)) => true,
        (State::Judged(Some(req)), Event::Sent(_)) => {
            matches!(req, NodePackageRequest::Install { .. })
        },
        (State::Installing(size), Event::Handled(Answer::Installed { reader, .. })) => {
            reader.size() == *size
        },
        (State::Draining { reader, .. }, Event::Chunk(_)) => {
            matches!(reader.next_chunk(), NextChunk::Read)
        },
        (State::Responding, Event::Sent(_)) => true,
        _ => false,
    }
}

/// Starts a dispatch.
pub fn start<A, R, P, U>() -> (r: (State, Action<A, R, P, U>))
    ensures
        r.0 == State::Receiving,
        r.1 == Action::<A, R, P, U>::Receive,
{
    (State::Receiving, Action::Receive)
}

/// One step of the dispatch of flat and node requests.
pub fn handle<A, R, P, U>(state: State, event: Event<A, R, P, U>) -> (r: (
    State,
    Action<A, R, P, U>,
))
    requires
        accepts(state, event),
    ensures
        transition(Scope::All, state, event, r.0, r.1),
{
    step(Scope::All, state, event)
}

/// One step of the dispatch of node requests. Any other request is refused
/// like one with a number that is not assigned.
pub fn handle_node<A, R, P, U>(state: State, event: Event<A, R, P, U>) -> (r: (
    State,
    Action<A, R, P, U>,
))
    requires
        accepts(state, event),
    ensures
        transition(Scope::NodeOnly, state, event, r.0, r.1),
{
    step(Scope::NodeOnly, state, event)
}

fn step<A, R, P, U>(scope: Scope, state: State, event: Event<A, R, P, U>) -> (r: (
    State,
    Action<A, R, P, U>,
))
    requires
        accepts(state, event),
    ensures
        transition(scope, state, event, r.0, r.1),
{
    match event {
        Event::Received(Ok((number, body))) => request(scope, number, body),
        Event::Received(Err(e)) => {
            if e.kind == IoErrorKind::UnexpectedEof {
                (State::Stopped, Action::Stop(Ok(())))
            } else {
                (State::Stopped, Action::Stop(Err(HandlerError::RecvError(e))))
            }
        },
        Event::Parsed(parsed) => match state {
            State::Parsing(code) => match parsed {
                Ok(args) => call(code, args),
                Err(e) => (
                    State::Stopped,
                    Action::Stop(Err(HandlerError::RecvError(parse_failure(code, e)))),
                ),
            },
            _ => unreached(),
        },
        Event::Handled(answer) => match state {
            State::Calling(pending) => respond(pending, answer),
            State::Preflighting(req) => match answer {
                Answer::Preflight(verdict) => judge(req, verdict),
                _ => unreached(),
            },
            State::Installing(_) => match answer {
                Answer::Installed { result, reader } => drain(result, reader),
                _ => unreached(),
            },
            _ => unreached(),
        },
        Event::Sent(sent) => match (state, sent) {
            (State::Judged(Some(req)), Ok(())) => {
                let size: u64 = match &req {
                    NodePackageRequest::Install { size, .. } => *size,
                    _ => 0,
                };
                let reader = PackageReader::new(size);
                (State::Installing(size), Action::Call(Call::Install(req, reader)))
            },
            (_, Ok(())) => (State::Receiving, Action::Receive),
            (_, Err(e)) => (State::Stopped, Action::Stop(Err(HandlerError::SendError(e)))),
        },
        Event::Chunk(read) => match state {
            State::Draining { result, reader } => drain_chunk(result, reader, read),
            _ => unreached(),
        },
    }
}

/// Dispatches a request by its number.
fn request<A, R, P, U>(scope: Scope, number: u32, body: Vec<u8>) -> (r: (
    State,
    Action<A, R, P, U>,
))
    ensures
        on_request(scope, number, body, r.0, r.1),
{
    let code = RequestCode::from_primitive(number);
    let node: u32 = u32::from(code);
    if code == RequestCode::Unknown || (scope == Scope::NodeOnly && !(100 <= node && node <= 109)) {
        let mut text: String = "unknown request code: ".to_owned();
        text.append(decimal_string(number as u64).as_str());
        return (State::Responding, Action::Send(Reply::Refusal(text)));
    }
    match route(code) {
        Route::Bare(method) => (
            State::Calling(Pending::Opaque),
            Action::Call(Call::Bare(method)),
        ),
        Route::Models => (State::Calling(Pending::Opaque), Action::Call(Call::Models(body))),
        Route::FlatPower(req) => (
            State::Calling(Pending::FlatPower),
            Action::Call(Call::NodePower(req)),
        ),
        Route::FlatObservation(req) => {
            let pending = match req {
                NodeObservationRequest::ResourceUsage => Pending::FlatUsage,
                _ => Pending::FlatProcesses,
            };
            (State::Calling(pending), Action::Call(Call::NodeObservation(req)))
        },
        Route::Echo => (State::Responding, Action::Send(Reply::Done(Ok(())))),
        _ => (State::Parsing(code), Action::Parse(code, body)),
    }
}

/// The error that ends the dispatch when the arguments of `code` do not
/// parse.
fn parse_failure(code: RequestCode, e: IoError) -> (r: IoError)
    ensures
        r == (if classifies_parse_failure(code) {
            IoError { class: Some(ProtocolErrorKind::InvalidArgs), ..e }
        } else {
            e
        }),
{
    match code {
        RequestCode::ReloadTi | RequestCode::NodePower => e.classified(
            ProtocolErrorKind::InvalidArgs,
        ),
        _ => e,
    }
}

/// Calls the handler with parsed arguments.
fn call<A, R, P, U>(code: RequestCode, args: Args<A>) -> (r: (State, Action<A, R, P, U>))
    requires
        args_fit(route_of(code), args),
    ensures
        on_args(code, args, r.0, r.1),
{
    match args {
        Args::Opaque(a) => match route(code) {
            Route::WithArgs(method) => (
                State::Calling(Pending::Opaque),
                Action::Call(Call::WithArgs(method, a)),
            ),
            _ => unreached(),
        },
        Args::Power(req) => {
            let answered = node_power_expects_response(&req);
            (State::Calling(Pending::Power { answered }), Action::Call(Call::NodePower(req)))
        },
        Args::Observation(req) => (
            State::Calling(Pending::Observation),
            Action::Call(Call::NodeObservation(req)),
        ),
        Args::Package(req) => dispatch_node_package(req),
    }
}

/// Serves one package request. An install is judged before any byte of its
/// payload is asked for; every other request is answered with one frame.
pub fn dispatch_node_package<A, R, P, U>(req: NodePackageRequest) -> (r: (
    State,
    Action<A, R, P, U>,
))
    ensures
        req is Install ==> r.0 == State::Preflighting(req) && r.1 == Action::<A, R, P, U>::Call(
            Call::Preflight,
        ),
        !(req is Install) ==> r.0 == State::Calling(Pending::Package) && r.1 == Action::<
            A,
            R,
            P,
            U,
        >::Call(Call::NodePackage(req)),
{
    let install = matches!(req, NodePackageRequest::Install { .. });
    if install {
        (State::Preflighting(req), Action::Call(Call::Preflight))
    } else {
        (State::Calling(Pending::Package), Action::Call(Call::NodePackage(req)))
    }
}

/// Sends the verdict on an install request.
fn judge<A, R, P, U>(req: NodePackageRequest, verdict: Result<InstallPreflight, String>) -> (r: (
    State,
    Action<A, R, P, U>,
))
    ensures
        r.0 == State::Judged(
            if verdict == Ok::<InstallPreflight, String>(InstallPreflight::Proceed) {
                Some(req)
            } else {
                None
            },
        ),
        r.1 == Action::<A, R, P, U>::Send(Reply::Preflight(verdict)),
{
    let proceed = matches!(verdict, Ok(InstallPreflight::Proceed));
    let next = if proceed {
        Some(req)
    } else {
        None
    };
    (State::Judged(next), Action::Send(Reply::Preflight(verdict)))
}

/// Turns the answer of the handler into a response.
fn respond<A, R, P, U>(pending: Pending, answer: Answer<R, P, U>) -> (r: (
    State,
    Action<A, R, P, U>,
))
    requires
        answer_fits(pending, answer),
    ensures
        on_answer(pending, answer, r.0, r.1),
{
    match answer {
        Answer::Opaque(result) => (State::Responding, Action::Send(Reply::Opaque(result))),
        Answer::Power(result) => match pending {
            Pending::Power { answered: false } => (State::Receiving, Action::Receive),
            Pending::FlatPower => {
                let reply = match result {
                    Ok(_) => Ok(()),
                    Err(text) => Err(text),
                };
                (State::Responding, Action::Send(Reply::Done(reply)))
            },
            _ => (State::Responding, Action::Send(Reply::Power(result))),
        },
        Answer::Observation { result, rendering } => match pending {
            Pending::FlatUsage => (
                State::Responding,
                Action::Send(Reply::Usage(usage_reply(result, rendering.as_str()))),
            ),
            Pending::FlatProcesses => (
                State::Responding,
                Action::Send(Reply::Processes(processes_reply(result, rendering.as_str()))),
            ),
            _ => (State::Responding, Action::Send(Reply::Observation(result))),
        },
        Answer::Package(result) => (State::Responding, Action::Send(Reply::Package(result))),
        Answer::Preflight(_) => unreached(),
        Answer::Installed { .. } => unreached(),
    }
}

/// Reads on what the handler left behind, so that the dispatch resumes on
/// the next request, or answers the install. A transfer that failed is not
/// drained: it has no determinate end to read up to.
fn drain<A, R, P, U>(result: Result<NodePackageResponse, String>, reader: PackageReader) -> (r: (
    State,
    Action<A, R, P, U>,
))
    ensures
        on_drain(result, reader@, "the package transfer already failed"@, r.0, r.1),
{
    match reader.next_chunk() {
        NextChunk::Read => (State::Draining { result, reader }, Action::ReadChunk),
        NextChunk::Complete => (
            State::Responding,
            Action::Send(Reply::Package(install_reply(result, None))),
        ),
        NextChunk::Failed(e) => (
            State::Responding,
            Action::Send(Reply::Package(install_reply(result, Some(e.message)))),
        ),
    }
}

/// Accounts for a chunk that was drained.
fn drain_chunk<A, R, P, U>(
    result: Result<NodePackageResponse, String>,
    reader: PackageReader,
    read: Result<Vec<u8>, IoError>,
) -> (r: (State, Action<A, R, P, U>))
    requires
        wants_chunk(reader@),
    ensures
        on_drain(result, after_read(reader@, read), read_failure_text(reader@, read), r.0, r.1),
{
    let mut reader = reader;
    match reader.read_chunk(read) {
        Ok(_) => drain(result, reader),
        Err(e) => (
            State::Responding,
            Action::Send(Reply::Package(install_reply(result, Some(e.message)))),
        ),
    }
}

fn unexpected(rendering: &str) -> (text: String)
    ensures
        text@ == unexpected_text(rendering@),
{
    let mut text: String = "unexpected node_observation response: ".to_owned();
    text.append(rendering);
    text
}

/// Turns the answer to an observation into that of a flat usage request.
pub fn usage_reply<P, U>(
    result: Result<NodeObservationResponse<P, U>, String>,
    rendering: &str,
) -> (reply: Result<(String, U), String>)
    ensures
        is_usage_reply(result, rendering@, reply),
{
    match result {
        Ok(NodeObservationResponse::ResourceUsage { hostname, resource_usage }) => Ok(
            (hostname, resource_usage),
        ),
        Ok(_) => Err(unexpected(rendering)),
        Err(text) => Err(text),
    }
}

/// Turns the answer to an observation into that of a flat process-list
/// request.
pub fn processes_reply<P, U>(
    result: Result<NodeObservationResponse<P, U>, String>,
    rendering: &str,
) -> (reply: Result<Vec<P>, String>)
    ensures
        is_processes_reply(result, rendering@, reply),
{
    match result {
        Ok(NodeObservationResponse::ProcessList { processes }) => Ok(processes),
        Ok(_) => Err(unexpected(rendering)),
        Err(text) => Err(text),
    }
}

/// Combines the answer of the handler to an install with the text of a
/// failure to receive its payload.
pub fn install_reply(
    result: Result<NodePackageResponse, String>,
    failure: Option<String>,
) -> (reply: Result<NodePackageResponse, String>)
    ensures
        is_install_reply(
            result,
            match failure {
                Some(text) => Some(text@),
                None => None,
            },
            reply,
        ),
{
    match (result, failure) {
        (result, None) => result,
        (Err(text), Some(_)) => Err(text),
        (Ok(_), Some(cause)) => {
            let mut text: String = "failed to receive the package payload: ".to_owned();
            text.append(cause.as_str());
            Err(text)
        },
    }
}

} // verus!
