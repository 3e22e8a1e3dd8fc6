//! The requests that a manager issues.
//!
//! Every method of [`Connection`] plans one exchange: the number and the
//! payload of the request, and whether an answer is awaited. Whoever holds
//! the transport serializes the payload, sends the frame and, where an
//! answer is awaited, hands it to [`response`].

use vstd::prelude::*;

use super::install::InstallState;
use super::node::NodePowerOutcome;
use super::Connection;
use crate::auth::{
    AuthorizationContext, AuthorizationError, Authorizer, AuthorizerV2, PeerContext,
};
use crate::client::RequestCode;
use crate::codec::{encode_number, encode_texts, written};
use crate::protocol_error::IoError;
use crate::service_id::ServiceId;
use crate::text::decimal_string;
use crate::types::node::{
    NodeEnrollRequest, NodeHostnameRequest, NodeLoggingRequest, NodeNetworkInterfaceRequest,
    NodeObservationRequest, NodePackageRequest, NodePowerRequest, NodePowerResponse,
    NodeRemoteAccessRequest, NodeRequest, NodeServiceRequest, NodeTimeSyncRequest,
    NodeVersionRequest,
};

verus! {

use crate::client::code_number;
use crate::codec::{low_bytes, texts_encoding};
use crate::collections::texts;
use crate::request::dispatch::{Args, Event, Scope};
use crate::request::expects_response;
use crate::request::laws::{is_step, Step};
use crate::text::decimal;

/// Why a request of the manager failed.
#[derive(Clone, Debug, Eq, PartialEq)]
pub enum ApiError {
    /// The authorizer refused the operation.
    Denied(AuthorizationError),
    /// The agent answered with an error.
    Remote(String),
    /// The transport failed.
    Transport(IoError),
    /// The verdict on an install could not be received.
    Verdict(IoError),
    /// The answer to an install could not be received.
    Response(IoError),
    /// The package could not be read.
    Source(IoError),
    /// The package is shorter than declared.
    SourceEnded { sent: u64, size: u64 },
    /// An install was issued as a unary request.
    InstallCarriesPayload,
    /// A unary request was issued as an install.
    NotAnInstall,
}

/// The text of an error.
pub open spec fn api_error_text(e: ApiError) -> Seq<char> {
    match e {
        ApiError::Denied(denial) => "authorization denied: "@ + denial.reason@,
        ApiError::Remote(text) => text@,
        ApiError::Transport(cause) => cause.message@,
        ApiError::Verdict(_) => "receiving the install preflight verdict"@,
        ApiError::Response(_) => "receiving the install response"@,
        ApiError::Source(_) => "reading the package payload"@,
        ApiError::SourceEnded { sent, size } => "the package source ended after "@ + decimal(
            sent as nat,
        ) + " of "@ + decimal(size as nat) + " bytes"@,
        ApiError::InstallCarriesPayload =>
            "an install request carries a payload; use `node_package_install`"@,
        ApiError::NotAnInstall =>
            "`node_package_install` accepts only an install request; use `node_package`"@,
    }
}

impl ApiError {
    /// Returns the text of the error.
    pub fn message(&self) -> (text: String)
        ensures
            text@ == api_error_text(*self),
    {
        match self {
            ApiError::Denied(denial) => denial.message(),
            ApiError::Remote(text) => text.clone(),
            ApiError::Transport(cause) => cause.message.clone(),
            ApiError::Verdict(_) => "receiving the install preflight verdict".to_owned(),
            ApiError::Response(_) => "receiving the install response".to_owned(),
            ApiError::Source(_) => "reading the package payload".to_owned(),
            ApiError::SourceEnded { sent, size } => {
                let mut text: String = "the package source ended after ".to_owned();
                text.append(decimal_string(*sent).as_str());
                text.append(" of ");
                text.append(decimal_string(*size).as_str());
                text.append(" bytes");
                text
            },
            ApiError::InstallCarriesPayload => {
                "an install request carries a payload; use `node_package_install`".to_owned()
            },
            ApiError::NotAnInstall => {
                "`node_package_install` accepts only an install request; use `node_package`"
                    .to_owned()
            },
        }
    }
}

/// Whether a request is answered.
#[derive(Clone, Copy, Debug, Eq, PartialEq, Structural)]
pub enum Reply {
    /// No answer is awaited.
    NotAwaited,
    /// One answer is awaited.
    Awaited,
}

/// One planned exchange with the agent.
#[derive(Debug)]
pub struct Exchange<T> {
    /// The request number.
    pub number: u32,
    /// The payload of the request.
    pub payload: T,
    /// Whether the request is answered.
    pub reply: Reply,
}

/// The exchange that sends `payload` under `code` and awaits an answer.
pub open spec fn unary<T>(code: RequestCode, payload: T) -> Exchange<T> {
    Exchange { number: code_number(code), payload, reply: Reply::Awaited }
}

/// The bytes of a request frame.
pub open spec fn request_bytes(number: u32, payload: Seq<u8>) -> Seq<u8> {
    low_bytes(number as nat, 4) + payload
}

/// Encodes a request frame: the number at its fixed size, then the payload.
pub fn encode_request(number: u32, payload: &[u8]) -> (frame: Vec<u8>)
    ensures
        frame@ == request_bytes(number, payload@),
{
    let mut frame = written(encode_number(number));
    frame.extend_from_slice(payload);
    assert(frame@ =~= request_bytes(number, payload@));
    frame
}

/// A request frame names its number and its payload: two requests with the
/// same frame are the same.
pub proof fn request_frame_is_unambiguous(a: u32, p: Seq<u8>, b: u32, q: Seq<u8>)
    requires
        request_bytes(a, p) == request_bytes(b, q),
    ensures
        a == b,
        p == q,
{
    reveal_with_fuel(low_bytes, 5);
    let f = request_bytes(a, p);
    let g = request_bytes(b, q);
    assert(f[0] == g[0] && f[1] == g[1] && f[2] == g[2] && f[3] == g[3]);
    assert(f.skip(4) =~= p);
    assert(g.skip(4) =~= q);
}

/// What an answer amounts to.
pub open spec fn response_of<S>(received: Result<Result<S, String>, IoError>) -> Result<
    S,
    ApiError,
> {
    match received {
        Ok(Ok(value)) => Ok(value),
        Ok(Err(text)) => Err(ApiError::Remote(text)),
        Err(e) => Err(ApiError::Transport(e)),
    }
}

/// Returns what an answer amounts to.
pub fn response<S>(received: Result<Result<S, String>, IoError>) -> (r: Result<S, ApiError>)
    ensures
        r == response_of(received),
{
    match received {
        Ok(Ok(value)) => Ok(value),
        Ok(Err(text)) => Err(ApiError::Remote(text)),
        Err(e) => Err(ApiError::Transport(e)),
    }
}

/// Refuses an install, which carries a payload.
pub fn reject_install(req: &NodePackageRequest) -> (r: Result<(), ApiError>)
    ensures
        r == (if req is Install {
            Err::<(), ApiError>(ApiError::InstallCarriesPayload)
        } else {
            Ok(())
        }),
{
    if matches!(req, NodePackageRequest::Install { .. }) {
        return Err(ApiError::InstallCarriesPayload);
    }
    Ok(())
}

/// The payload length of an install; any other request has none.
pub open spec fn install_size_of(req: NodePackageRequest) -> Result<u64, ApiError> {
    match req {
        NodePackageRequest::Install { size, .. } => Ok(size),
        _ => Err(ApiError::NotAnInstall),
    }
}

/// Returns the payload length of an install and refuses any other request.
pub fn install_size(req: &NodePackageRequest) -> (r: Result<u64, ApiError>)
    ensures
        r == install_size_of(*req),
{
    match req {
        NodePackageRequest::Install { size, .. } => Ok(*size),
        NodePackageRequest::Remove { .. } | NodePackageRequest::ListInstalled
        | NodePackageRequest::Status { .. } => Err(ApiError::NotAnInstall),
    }
}

/// Whether `r` is what comes of asking the authorizer for `service` on
/// behalf of `peer`: `granted` if the authorizer allows it, and otherwise
/// its refusal, with nothing to send.
pub open spec fn is_authorized<A: Authorizer + ?Sized, T>(
    authorizer: &A,
    peer: &PeerContext,
    service: ServiceId,
    granted: T,
    r: Result<T, ApiError>,
) -> bool {
    exists|verdict: Result<(), AuthorizationError>|
        {
            &&& #[trigger] call_ensures(A::authorize, (authorizer, peer, &service), verdict)
            &&& r == match verdict {
                Ok(()) => Ok::<T, ApiError>(granted),
                Err(denial) => Err(ApiError::Denied(denial)),
            }
        }
}

/// Whether `r` is what comes of asking the authorizer for `service` in
/// `context`: `granted` if the authorizer allows it, and otherwise its
/// refusal, with nothing to send.
pub open spec fn is_authorized_in<A: AuthorizerV2 + ?Sized, T>(
    authorizer: &A,
    context: &AuthorizationContext,
    service: ServiceId,
    granted: T,
    r: Result<T, ApiError>,
) -> bool {
    exists|verdict: Result<(), AuthorizationError>|
        {
            &&& #[trigger] call_ensures(
                A::authorize_with_context,
                (authorizer, context, &service),
                verdict,
            )
            &&& r == match verdict {
                Ok(()) => Ok::<T, ApiError>(granted),
                Err(denial) => Err(ApiError::Denied(denial)),
            }
        }
}

/// Returns `granted` if the authorizer allows `service` to `peer`.
pub fn authorized<A: Authorizer + ?Sized, T>(
    authorizer: &A,
    peer: &PeerContext,
    service: &ServiceId,
    granted: T,
) -> (r: Result<T, ApiError>)
    ensures
        is_authorized(authorizer, peer, *service, granted, r),
{
    let verdict = authorizer.authorize(peer, service);
    match verdict {
        Ok(()) => Ok(granted),
        Err(denial) => Err(ApiError::Denied(denial)),
    }
}

/// Returns `granted` if the authorizer allows `service` in `context`.
pub fn authorized_in<A: AuthorizerV2 + ?Sized, T>(
    authorizer: &A,
    context: &AuthorizationContext,
    service: &ServiceId,
    granted: T,
) -> (r: Result<T, ApiError>)
    ensures
        is_authorized_in(authorizer, context, *service, granted, r),
{
    let verdict = authorizer.authorize_with_context(context, service);
    match verdict {
        Ok(()) => Ok(granted),
        Err(denial) => Err(ApiError::Denied(denial)),
    }
}

/// The request number of the enrollment family.
pub const NODE_ENROLL: u32 = 110;

/// The exchange of a power request. An immediate operation is not answered.
pub open spec fn power_exchange(req: NodePowerRequest) -> Exchange<NodePowerRequest> {
    Exchange {
        number: code_number(RequestCode::NodePower),
        payload: req,
        reply: if expects_response(req) {
            Reply::Awaited
        } else {
            Reply::NotAwaited
        },
    }
}

/// The exchange of an enrollment request.
pub open spec fn enroll_exchange(req: NodeEnrollRequest) -> Exchange<NodeEnrollRequest> {
    Exchange { number: NODE_ENROLL, payload: req, reply: Reply::Awaited }
}

/// One planned install.
#[derive(Debug)]
pub struct Install {
    /// The framed request. Its answer is the verdict of the agent.
    pub request: Exchange<NodePackageRequest>,
    /// The state that the install exchange starts in.
    pub state: InstallState,
}

/// The install that a request plans. It goes by the size that the request
/// declares.
pub open spec fn install_of(req: NodePackageRequest) -> Install {
    Install {
        request: unary(RequestCode::NodePackage, req),
        state: InstallState::Requesting { size: install_size_of(req)->Ok_0 },
    }
}

fn send_request<T>(code: RequestCode, payload: T) -> (exchange: Exchange<T>)
    ensures
        exchange == unary(code, payload),
{
    Exchange { number: u32::from(code), payload, reply: Reply::Awaited }
}

fn send_request_no_response<T>(code: RequestCode, payload: T) -> (exchange: Exchange<T>)
    ensures
        exchange == (Exchange { number: code_number(code), payload, reply: Reply::NotAwaited }),
{
    Exchange { number: u32::from(code), payload, reply: Reply::NotAwaited }
}

/// Returns the outcome of a power operation, given its answer if there is
/// one.
pub fn power_outcome(answer: Option<NodePowerResponse>) -> (outcome: NodePowerOutcome)
    ensures
        outcome == match answer {
            Some(response) => NodePowerOutcome::Response(response),
            None => NodePowerOutcome::Sent,
        },
{
    match answer {
        Some(response) => NodePowerOutcome::Response(response),
        None => NodePowerOutcome::Sent,
    }
}

fn plan_install(req: NodePackageRequest, size: u64) -> (install: Install)
    requires
        req matches NodePackageRequest::Install { size: declared, .. } && declared == size,
    ensures
        install == install_of(req),
{
    Install {
        request: send_request(RequestCode::NodePackage, req),
        state: InstallState::Requesting { size },
    }
}

impl Connection {
    /// Sends the allowlist.
    pub fn send_allowlist<T>(&self, allowlist: T) -> (exchange: Exchange<T>)
        ensures
            exchange == unary(RequestCode::Allowlist, allowlist),
    {
        send_request(RequestCode::Allowlist, allowlist)
    }

    /// Sends the blocklist.
    pub fn send_blocklist<T>(&self, blocklist: T) -> (exchange: Exchange<T>)
        ensures
            exchange == unary(RequestCode::Blocklist, blocklist),
    {
        send_request(RequestCode::Blocklist, blocklist)
    }

    /// Asks for the deletion of the data of a customer.
    pub fn send_delete_customer_data_cmd<T>(&self, request: T) -> (exchange: Exchange<T>)
        ensures
            exchange == unary(RequestCode::DeleteCustomerData, request),
    {
        send_request(RequestCode::DeleteCustomerData, request)
    }

    /// Sends the traffic filter rules.
    pub fn send_filtering_rules<T>(&self, list: T) -> (exchange: Exchange<T>)
        ensures
            exchange == unary(RequestCode::ReloadFilterRule, list),
    {
        send_request(RequestCode::ReloadFilterRule, list)
    }

    /// Sends the list of internal networks.
    pub fn send_internal_network_list<T>(&self, list: T) -> (exchange: Exchange<T>)
        ensures
            exchange == unary(RequestCode::InternalNetworkList, list),
    {
        send_request(RequestCode::InternalNetworkList, list)
    }

    /// Sends the sampling policies.
    pub fn send_sampling_policies<T>(&self, list: T) -> (exchange: Exchange<T>)
        ensures
            exchange == unary(RequestCode::SamplingPolicyList, list),
    {
        send_request(RequestCode::SamplingPolicyList, list)
    }

    /// Asks for an update of the configuration. The payload is empty.
    pub fn send_config_update_cmd(&self) -> (exchange: Exchange<Vec<u8>>)
        ensures
            exchange.number == code_number(RequestCode::UpdateConfig),
            exchange.payload@ == Seq::<u8>::empty(),
            exchange.reply == Reply::Awaited,
    {
        send_request(RequestCode::UpdateConfig, Vec::new())
    }

    /// Sends a ping. The payload is empty.
    pub fn send_ping(&self) -> (exchange: Exchange<Vec<u8>>)
        ensures
            exchange.number == code_number(RequestCode::EchoRequest),
            exchange.payload@ == Seq::<u8>::empty(),
            exchange.reply == Reply::Awaited,
    {
        send_request(RequestCode::EchoRequest, Vec::new())
    }

    /// Sends the list of Tor exit nodes. The payload is the encoded list.
    pub fn send_tor_exit_node_list(&self, list: &[String]) -> (exchange: Exchange<Vec<u8>>)
        ensures
            exchange.number == code_number(RequestCode::TorExitNodeList),
            exchange.payload@ == texts_encoding(texts(list@)),
            exchange.reply == Reply::Awaited,
    {
        send_request(RequestCode::TorExitNodeList, written(encode_texts(list)))
    }

    /// Sends the list of trusted domains. The payload is the encoded list.
    pub fn send_trusted_domain_list(&self, list: &[String]) -> (exchange: Exchange<Vec<u8>>)
        ensures
            exchange.number == code_number(RequestCode::TrustedDomainList),
            exchange.payload@ == texts_encoding(texts(list@)),
            exchange.reply == Reply::Awaited,
    {
        send_request(RequestCode::TrustedDomainList, written(encode_texts(list)))
    }

    /// Sends the list of trusted user agents. The payload is the encoded list.
    pub fn send_trusted_user_agent_list(&self, list: &[String]) -> (exchange: Exchange<Vec<u8>>)
        ensures
            exchange.number == code_number(RequestCode::TrustedUserAgentList),
            exchange.payload@ == texts_encoding(texts(list@)),
            exchange.reply == Reply::Awaited,
    {
        send_request(RequestCode::TrustedUserAgentList, written(encode_texts(list)))
    }

    /// Sends a node service-control request.
    pub fn node_service(&self, req: NodeServiceRequest) -> (exchange: Exchange<NodeServiceRequest>)
        ensures
            exchange == unary(RequestCode::NodeService, req),
    {
        send_request(RequestCode::NodeService, req)
    }

    /// Sends a network-interface management request.
    pub fn node_network_interface(&self, req: NodeNetworkInterfaceRequest) -> (exchange: Exchange<
        NodeNetworkInterfaceRequest,
    >)
        ensures
            exchange == unary(RequestCode::NodeNetworkInterface, req),
    {
        send_request(RequestCode::NodeNetworkInterface, req)
    }

    /// Sends a hostname management request.
    pub fn node_hostname(&self, req: NodeHostnameRequest) -> (exchange: Exchange<
        NodeHostnameRequest,
    >)
        ensures
            exchange == unary(RequestCode::NodeHostname, req),
    {
        send_request(RequestCode::NodeHostname, req)
    }

    /// Sends a time-synchronization request.
    pub fn node_time_sync(&self, req: NodeTimeSyncRequest) -> (exchange: Exchange<
        NodeTimeSyncRequest,
    >)
        ensures
            exchange == unary(RequestCode::NodeTimeSync, req),
    {
        send_request(RequestCode::NodeTimeSync, req)
    }

    /// Sends a logging-configuration request.
    pub fn node_logging(&self, req: NodeLoggingRequest) -> (exchange: Exchange<NodeLoggingRequest>)
        ensures
            exchange == unary(RequestCode::NodeLogging, req),
    {
        send_request(RequestCode::NodeLogging, req)
    }

    /// Sends a remote-access request.
    pub fn node_remote_access(&self, req: NodeRemoteAccessRequest) -> (exchange: Exchange<
        NodeRemoteAccessRequest,
    >)
        ensures
            exchange == unary(RequestCode::NodeRemoteAccess, req),
    {
        send_request(RequestCode::NodeRemoteAccess, req)
    }

    /// Sends a host-observation request.
    pub fn node_observation(&self, req: NodeObservationRequest) -> (exchange: Exchange<
        NodeObservationRequest,
    >)
        ensures
            exchange == unary(RequestCode::NodeObservation, req),
    {
        send_request(RequestCode::NodeObservation, req)
    }

    /// Sends a version-management request.
    pub fn node_version(&self, req: NodeVersionRequest) -> (exchange: Exchange<NodeVersionRequest>)
        ensures
            exchange == unary(RequestCode::NodeVersion, req),
    {
        send_request(RequestCode::NodeVersion, req)
    }

    /// Sends a power-control request. An immediate operation is not answered.
    pub fn node_power(&self, req: NodePowerRequest) -> (exchange: Exchange<NodePowerRequest>)
        ensures
            exchange == power_exchange(req),
    {
        match req {
            NodePowerRequest::Reboot | NodePowerRequest::Shutdown => send_request_no_response(
                RequestCode::NodePower,
                req,
            ),
            NodePowerRequest::GracefulReboot | NodePowerRequest::GracefulShutdown => send_request(
                RequestCode::NodePower,
                req,
            ),
        }
    }

    /// Sends an enrollment request.
    pub fn node_enroll(&self, req: NodeEnrollRequest) -> (exchange: Exchange<NodeEnrollRequest>)
        ensures
            exchange == enroll_exchange(req),
    {
        Exchange { number: NODE_ENROLL, payload: req, reply: Reply::Awaited }
    }

    /// Sends a unary package request. An install is refused.
    pub fn node_package(&self, req: NodePackageRequest) -> (r: Result<
        Exchange<NodePackageRequest>,
        ApiError,
    >)
        ensures
            req is Install ==> r == Err::<Exchange<NodePackageRequest>, ApiError>(
                ApiError::InstallCarriesPayload,
            ),
            !(req is Install) ==> r == Ok::<Exchange<NodePackageRequest>, ApiError>(
                unary(RequestCode::NodePackage, req),
            ),
    {
        match reject_install(&req) {
            Ok(()) => Ok(send_request(RequestCode::NodePackage, req)),
            Err(e) => Err(e),
        }
    }

    /// Installs a package. Any other request is refused.
    pub fn node_package_install(&self, req: NodePackageRequest) -> (r: Result<Install, ApiError>)
        ensures
            req is Install ==> r == Ok::<Install, ApiError>(install_of(req)),
            !(req is Install) ==> r == Err::<Install, ApiError>(ApiError::NotAnInstall),
    {
        match install_size(&req) {
            Ok(size) => Ok(plan_install(req, size)),
            Err(e) => Err(e),
        }
    }

    /// Sends a node service-control request, if the authorizer allows its operation
    /// to `peer`.
    pub fn node_service_authorized<A: Authorizer + ?Sized>(
        &self,
        req: NodeServiceRequest,
        peer: &PeerContext,
        authorizer: &A,
    ) -> (r: Result<Exchange<NodeServiceRequest>, ApiError>)
        ensures
            is_authorized(
                authorizer,
                peer,
                req.operation(),
                unary(RequestCode::NodeService, req),
                r,
            ),
    {
        let service = req.service_id();
        authorized(authorizer, peer, &service, self.node_service(req))
    }

    /// Sends a network-interface management request, if the authorizer allows its operation
    /// to `peer`.
    pub fn node_network_interface_authorized<A: Authorizer + ?Sized>(
        &self,
        req: NodeNetworkInterfaceRequest,
        peer: &PeerContext,
        authorizer: &A,
    ) -> (r: Result<Exchange<NodeNetworkInterfaceRequest>, ApiError>)
        ensures
            is_authorized(
                authorizer,
                peer,
                req.operation(),
                unary(RequestCode::NodeNetworkInterface, req),
                r,
            ),
    {
        let service = req.service_id();
        authorized(authorizer, peer, &service, self.node_network_interface(req))
    }

    /// Sends a hostname management request, if the authorizer allows its operation
    /// to `peer`.
    pub fn node_hostname_authorized<A: Authorizer + ?Sized>(
        &self,
        req: NodeHostnameRequest,
        peer: &PeerContext,
        authorizer: &A,
    ) -> (r: Result<Exchange<NodeHostnameRequest>, ApiError>)
        ensures
            is_authorized(
                authorizer,
                peer,
                req.operation(),
                unary(RequestCode::NodeHostname, req),
                r,
            ),
    {
        let service = req.service_id();
        authorized(authorizer, peer, &service, self.node_hostname(req))
    }

    /// Sends a time-synchronization request, if the authorizer allows its operation
    /// to `peer`.
    pub fn node_time_sync_authorized<A: Authorizer + ?Sized>(
        &self,
        req: NodeTimeSyncRequest,
        peer: &PeerContext,
        authorizer: &A,
    ) -> (r: Result<Exchange<NodeTimeSyncRequest>, ApiError>)
        ensures
            is_authorized(
                authorizer,
                peer,
                req.operation(),
                unary(RequestCode::NodeTimeSync, req),
                r,
            ),
    {
        let service = req.service_id();
        authorized(authorizer, peer, &service, self.node_time_sync(req))
    }

    /// Sends a logging-configuration request, if the authorizer allows its operation
    /// to `peer`.
    pub fn node_logging_authorized<A: Authorizer + ?Sized>(
        &self,
        req: NodeLoggingRequest,
        peer: &PeerContext,
        authorizer: &A,
    ) -> (r: Result<Exchange<NodeLoggingRequest>, ApiError>)
        ensures
            is_authorized(
                authorizer,
                peer,
                req.operation(),
                unary(RequestCode::NodeLogging, req),
                r,
            ),
    {
        let service = req.service_id();
        authorized(authorizer, peer, &service, self.node_logging(req))
    }

    /// Sends a remote-access request, if the authorizer allows its operation
    /// to `peer`.
    pub fn node_remote_access_authorized<A: Authorizer + ?Sized>(
        &self,
        req: NodeRemoteAccessRequest,
        peer: &PeerContext,
        authorizer: &A,
    ) -> (r: Result<Exchange<NodeRemoteAccessRequest>, ApiError>)
        ensures
            is_authorized(
                authorizer,
                peer,
                req.operation(),
                unary(RequestCode::NodeRemoteAccess, req),
                r,
            ),
    {
        let service = req.service_id();
        authorized(authorizer, peer, &service, self.node_remote_access(req))
    }

    /// Sends a power-control request, if the authorizer allows its operation
    /// to `peer`.
    pub fn node_power_authorized<A: Authorizer + ?Sized>(
        &self,
        req: NodePowerRequest,
        peer: &PeerContext,
        authorizer: &A,
    ) -> (r: Result<Exchange<NodePowerRequest>, ApiError>)
        ensures
            is_authorized(authorizer, peer, req.operation(), power_exchange(req), r),
    {
        let service = req.service_id();
        authorized(authorizer, peer, &service, self.node_power(req))
    }

    /// Sends a host-observation request, if the authorizer allows its operation
    /// to `peer`.
    pub fn node_observation_authorized<A: Authorizer + ?Sized>(
        &self,
        req: NodeObservationRequest,
        peer: &PeerContext,
        authorizer: &A,
    ) -> (r: Result<Exchange<NodeObservationRequest>, ApiError>)
        ensures
            is_authorized(
                authorizer,
                peer,
                req.operation(),
                unary(RequestCode::NodeObservation, req),
                r,
            ),
    {
        let service = req.service_id();
        authorized(authorizer, peer, &service, self.node_observation(req))
    }

    /// Sends a version-management request, if the authorizer allows its operation
    /// to `peer`.
    pub fn node_version_authorized<A: Authorizer + ?Sized>(
        &self,
        req: NodeVersionRequest,
        peer: &PeerContext,
        authorizer: &A,
    ) -> (r: Result<Exchange<NodeVersionRequest>, ApiError>)
        ensures
            is_authorized(
                authorizer,
                peer,
                req.operation(),
                unary(RequestCode::NodeVersion, req),
                r,
            ),
    {
        let service = req.service_id();
        authorized(authorizer, peer, &service, self.node_version(req))
    }

    /// Sends an enrollment request, if the authorizer allows its operation
    /// to `peer`.
    pub fn node_enroll_authorized<A: Authorizer + ?Sized>(
        &self,
        req: NodeEnrollRequest,
        peer: &PeerContext,
        authorizer: &A,
    ) -> (r: Result<Exchange<NodeEnrollRequest>, ApiError>)
        ensures
            is_authorized(authorizer, peer, req.operation(), enroll_exchange(req), r),
    {
        let service = req.service_id();
        authorized(authorizer, peer, &service, self.node_enroll(req))
    }

    /// Sends a unary package request, if the authorizer allows its operation
    /// to `peer`. An install is refused without asking.
    pub fn node_package_authorized<A: Authorizer + ?Sized>(
        &self,
        req: NodePackageRequest,
        peer: &PeerContext,
        authorizer: &A,
    ) -> (r: Result<Exchange<NodePackageRequest>, ApiError>)
        ensures
            req is Install ==> r == Err::<Exchange<NodePackageRequest>, ApiError>(
                ApiError::InstallCarriesPayload,
            ),
            !(req is Install) ==> is_authorized(
                authorizer,
                peer,
                req.operation(),
                unary(RequestCode::NodePackage, req),
                r,
            ),
    {
        match reject_install(&req) {
            Ok(()) => {
                let service = req.service_id();
                let exchange = send_request(RequestCode::NodePackage, req);
                authorized(authorizer, peer, &service, exchange)
            },
            Err(e) => Err(e),
        }
    }

    /// Installs a package, if the authorizer allows it to `peer`.
    /// Any other request is refused without asking.
    pub fn node_package_install_authorized<A: Authorizer + ?Sized>(
        &self,
        req: NodePackageRequest,
        peer: &PeerContext,
        authorizer: &A,
    ) -> (r: Result<Install, ApiError>)
        ensures
            req is Install ==> is_authorized(authorizer, peer, req.operation(), install_of(req), r),
            !(req is Install) ==> r == Err::<Install, ApiError>(ApiError::NotAnInstall),
    {
        match install_size(&req) {
            Ok(size) => {
                let service = req.service_id();
                authorized(authorizer, peer, &service, plan_install(req, size))
            },
            Err(e) => Err(e),
        }
    }

    /// Sends a node service-control request, if the authorizer allows its operation
    /// in `auth_ctx`.
    pub fn node_service_with_context<A: AuthorizerV2 + ?Sized>(
        &self,
        req: NodeServiceRequest,
        auth_ctx: &AuthorizationContext,
        authorizer: &A,
    ) -> (r: Result<Exchange<NodeServiceRequest>, ApiError>)
        ensures
            is_authorized_in(
                authorizer,
                auth_ctx,
                req.operation(),
                unary(RequestCode::NodeService, req),
                r,
            ),
    {
        let service = req.service_id();
        authorized_in(authorizer, auth_ctx, &service, self.node_service(req))
    }

    /// Sends a network-interface management request, if the authorizer allows its operation
    /// in `auth_ctx`.
    pub fn node_network_interface_with_context<A: AuthorizerV2 + ?Sized>(
        &self,
        req: NodeNetworkInterfaceRequest,
        auth_ctx: &AuthorizationContext,
        authorizer: &A,
    ) -> (r: Result<Exchange<NodeNetworkInterfaceRequest>, ApiError>)
        ensures
            is_authorized_in(
                authorizer,
                auth_ctx,
                req.operation(),
                unary(RequestCode::NodeNetworkInterface, req),
                r,
            ),
    {
        let service = req.service_id();
        authorized_in(authorizer, auth_ctx, &service, self.node_network_interface(req))
    }

    /// Sends a hostname management request, if the authorizer allows its operation
    /// in `auth_ctx`.
    pub fn node_hostname_with_context<A: AuthorizerV2 + ?Sized>(
        &self,
        req: NodeHostnameRequest,
        auth_ctx: &AuthorizationContext,
        authorizer: &A,
    ) -> (r: Result<Exchange<NodeHostnameRequest>, ApiError>)
        ensures
            is_authorized_in(
                authorizer,
                auth_ctx,
                req.operation(),
                unary(RequestCode::NodeHostname, req),
                r,
            ),
    {
        let service = req.service_id();
        authorized_in(authorizer, auth_ctx, &service, self.node_hostname(req))
    }

    /// Sends a time-synchronization request, if the authorizer allows its operation
    /// in `auth_ctx`.
    pub fn node_time_sync_with_context<A: AuthorizerV2 + ?Sized>(
        &self,
        req: NodeTimeSyncRequest,
        auth_ctx: &AuthorizationContext,
        authorizer: &A,
    ) -> (r: Result<Exchange<NodeTimeSyncRequest>, ApiError>)
        ensures
            is_authorized_in(
                authorizer,
                auth_ctx,
                req.operation(),
                unary(RequestCode::NodeTimeSync, req),
                r,
            ),
    {
        let service = req.service_id();
        authorized_in(authorizer, auth_ctx, &service, self.node_time_sync(req))
    }

    /// Sends a logging-configuration request, if the authorizer allows its operation
    /// in `auth_ctx`.
    pub fn node_logging_with_context<A: AuthorizerV2 + ?Sized>(
        &self,
        req: NodeLoggingRequest,
        auth_ctx: &AuthorizationContext,
        authorizer: &A,
    ) -> (r: Result<Exchange<NodeLoggingRequest>, ApiError>)
        ensures
            is_authorized_in(
                authorizer,
                auth_ctx,
                req.operation(),
                unary(RequestCode::NodeLogging, req),
                r,
            ),
    {
        let service = req.service_id();
        authorized_in(authorizer, auth_ctx, &service, self.node_logging(req))
    }

    /// Sends a remote-access request, if the authorizer allows its operation
    /// in `auth_ctx`.
    pub fn node_remote_access_with_context<A: AuthorizerV2 + ?Sized>(
        &self,
        req: NodeRemoteAccessRequest,
        auth_ctx: &AuthorizationContext,
        authorizer: &A,
    ) -> (r: Result<Exchange<NodeRemoteAccessRequest>, ApiError>)
        ensures
            is_authorized_in(
                authorizer,
                auth_ctx,
                req.operation(),
                unary(RequestCode::NodeRemoteAccess, req),
                r,
            ),
    {
        let service = req.service_id();
        authorized_in(authorizer, auth_ctx, &service, self.node_remote_access(req))
    }

    /// Sends a power-control request, if the authorizer allows its operation
    /// in `auth_ctx`.
    pub fn node_power_with_context<A: AuthorizerV2 + ?Sized>(
        &self,
        req: NodePowerRequest,
        auth_ctx: &AuthorizationContext,
        authorizer: &A,
    ) -> (r: Result<Exchange<NodePowerRequest>, ApiError>)
        ensures
            is_authorized_in(authorizer, auth_ctx, req.operation(), power_exchange(req), r),
    {
        let service = req.service_id();
        authorized_in(authorizer, auth_ctx, &service, self.node_power(req))
    }

    /// Sends a host-observation request, if the authorizer allows its operation
    /// in `auth_ctx`.
    pub fn node_observation_with_context<A: AuthorizerV2 + ?Sized>(
        &self,
        req: NodeObservationRequest,
        auth_ctx: &AuthorizationContext,
        authorizer: &A,
    ) -> (r: Result<Exchange<NodeObservationRequest>, ApiError>)
        ensures
            is_authorized_in(
                authorizer,
                auth_ctx,
                req.operation(),
                unary(RequestCode::NodeObservation, req),
                r,
            ),
    {
        let service = req.service_id();
        authorized_in(authorizer, auth_ctx, &service, self.node_observation(req))
    }

    /// Sends a version-management request, if the authorizer allows its operation
    /// in `auth_ctx`.
    pub fn node_version_with_context<A: AuthorizerV2 + ?Sized>(
        &self,
        req: NodeVersionRequest,
        auth_ctx: &AuthorizationContext,
        authorizer: &A,
    ) -> (r: Result<Exchange<NodeVersionRequest>, ApiError>)
        ensures
            is_authorized_in(
                authorizer,
                auth_ctx,
                req.operation(),
                unary(RequestCode::NodeVersion, req),
                r,
            ),
    {
        let service = req.service_id();
        authorized_in(authorizer, auth_ctx, &service, self.node_version(req))
    }

    /// Sends an enrollment request, if the authorizer allows its operation
    /// in `auth_ctx`.
    pub fn node_enroll_with_context<A: AuthorizerV2 + ?Sized>(
        &self,
        req: NodeEnrollRequest,
        auth_ctx: &AuthorizationContext,
        authorizer: &A,
    ) -> (r: Result<Exchange<NodeEnrollRequest>, ApiError>)
        ensures
            is_authorized_in(authorizer, auth_ctx, req.operation(), enroll_exchange(req), r),
    {
        let service = req.service_id();
        authorized_in(authorizer, auth_ctx, &service, self.node_enroll(req))
    }

    /// Sends a unary package request, if the authorizer allows its operation
    /// in `auth_ctx`. An install is refused without asking.
    pub fn node_package_with_context<A: AuthorizerV2 + ?Sized>(
        &self,
        req: NodePackageRequest,
        auth_ctx: &AuthorizationContext,
        authorizer: &A,
    ) -> (r: Result<Exchange<NodePackageRequest>, ApiError>)
        ensures
            req is Install ==> r == Err::<Exchange<NodePackageRequest>, ApiError>(
                ApiError::InstallCarriesPayload,
            ),
            !(req is Install) ==> is_authorized_in(
                authorizer,
                auth_ctx,
                req.operation(),
                unary(RequestCode::NodePackage, req),
                r,
            ),
    {
        match reject_install(&req) {
            Ok(()) => {
                let service = req.service_id();
                let exchange = send_request(RequestCode::NodePackage, req);
                authorized_in(authorizer, auth_ctx, &service, exchange)
            },
            Err(e) => Err(e),
        }
    }

    /// Installs a package, if the authorizer allows it in `auth_ctx`.
    /// Any other request is refused without asking.
    pub fn node_package_install_with_context<A: AuthorizerV2 + ?Sized>(
        &self,
        req: NodePackageRequest,
        auth_ctx: &AuthorizationContext,
        authorizer: &A,
    ) -> (r: Result<Install, ApiError>)
        ensures
            req is Install ==> is_authorized_in(
                authorizer,
                auth_ctx,
                req.operation(),
                install_of(req),
                r,
            ),
            !(req is Install) ==> r == Err::<Install, ApiError>(ApiError::NotAnInstall),
    {
        match install_size(&req) {
            Ok(size) => {
                let service = req.service_id();
                authorized_in(authorizer, auth_ctx, &service, plan_install(req, size))
            },
            Err(e) => Err(e),
        }
    }
}

/// A request that the authorizer refuses is not sent: there is no exchange
/// to carry out, only the refusal.
pub proof fn refused_request_is_not_sent<A: Authorizer + ?Sized, T>(
    authorizer: &A,
    peer: &PeerContext,
    service: ServiceId,
    granted: T,
    r: Result<T, ApiError>,
)
    requires
        is_authorized(authorizer, peer, service, granted, r),
        forall|verdict: Result<(), AuthorizationError>| #[trigger]
            call_ensures(A::authorize, (authorizer, peer, &service), verdict) ==> verdict is Err,
    ensures
        r matches Err(e) && e is Denied,
{
}

/// A request that the authorizer allows goes ahead unchanged.
pub proof fn allowed_request_is_unchanged<A: Authorizer + ?Sized, T>(
    authorizer: &A,
    peer: &PeerContext,
    service: ServiceId,
    granted: T,
    r: Result<T, ApiError>,
)
    requires
        is_authorized(authorizer, peer, service, granted, r),
        forall|verdict: Result<(), AuthorizationError>| #[trigger]
            call_ensures(A::authorize, (authorizer, peer, &service), verdict) ==> verdict is Ok,
    ensures
        r == Ok::<T, ApiError>(granted),
{
}

/// A request that the authorizer refuses in its context is not sent.
pub proof fn refused_in_context_is_not_sent<A: AuthorizerV2 + ?Sized, T>(
    authorizer: &A,
    context: &AuthorizationContext,
    service: ServiceId,
    granted: T,
    r: Result<T, ApiError>,
)
    requires
        is_authorized_in(authorizer, context, service, granted, r),
        forall|verdict: Result<(), AuthorizationError>| #[trigger]
            call_ensures(
                A::authorize_with_context,
                (authorizer, context, &service),
                verdict,
            ) ==> verdict is Err,
    ensures
        r matches Err(e) && e is Denied,
{
}

/// A request that the authorizer allows in its context goes ahead unchanged.
pub proof fn allowed_in_context_is_unchanged<A: AuthorizerV2 + ?Sized, T>(
    authorizer: &A,
    context: &AuthorizationContext,
    service: ServiceId,
    granted: T,
    r: Result<T, ApiError>,
)
    requires
        is_authorized_in(authorizer, context, service, granted, r),
        forall|verdict: Result<(), AuthorizationError>| #[trigger]
            call_ensures(
                A::authorize_with_context,
                (authorizer, context, &service),
                verdict,
            ) ==> verdict is Ok,
    ensures
        r == Ok::<T, ApiError>(granted),
{
}

/// The manager awaits an answer to a power request exactly where the agent
/// sends one, so that neither side waits for a frame that does not come: once
/// the agent has the request, what it does after the handler answered is to
/// send a response if the manager awaits one, and otherwise to receive the
/// next request.
pub proof fn both_sides_agree_on_power_answers<A, R, P, U>(
    scope: Scope,
    req: NodePowerRequest,
    parsed: Step<A, R, P, U>,
    handled: Step<A, R, P, U>,
)
    requires
        is_step(scope, parsed),
        is_step(scope, handled),
        handled.pre == parsed.post,
        parsed.event == Event::<A, R, P, U>::Parsed(Ok(Args::Power(req))),
    ensures
        power_exchange(req).reply == Reply::Awaited <==> handled.action is Send,
        power_exchange(req).reply == Reply::NotAwaited <==> handled.action is Receive,
{
}

} // verus!
