//! What holds of the requests that a manager issues.

use vstd::prelude::*;

use super::api::{
    authorized, authorized_in, encode_request, install_size, power_outcome, reject_install,
    response, ApiError, Exchange, Install, Reply,
};
use super::install::InstallState;
use super::node::{Node, NodePowerOutcome};
use super::Connection;
use crate::auth::{
    AuthorizationContext, AuthorizationError, Authorizer, AuthorizerV2, PeerContext,
};
use crate::client::RequestCode;
use crate::protocol_error::IoError;
use crate::service_id::ServiceId;
use crate::types::node::{
    NodeEnrollRequest, NodeHostnameRequest, NodeLoggingRequest, NodeNetworkInterfaceRequest,
    NodeObservationRequest, NodePackageRequest, NodePowerRequest, NodePowerResponse,
    NodeRemoteAccessRequest, NodeRequest, NodeServiceRequest, NodeTimeSyncRequest,
    NodeVersionRequest,
};

verus! {

use super::api::{power_exchange, unary};
use crate::codec::{low_bytes, texts_encoding};
use crate::collections::texts;
use crate::request::dispatch::{Args, Event, Scope};
use crate::request::laws::{frames, only_immediate_power_goes_unanswered};
use crate::request::laws::{serves_one_request, Step};
use crate::text::decimal;

/// Whether `exchange` sends `payload` under `number` and awaits the answer.
pub open spec fn asks<T>(exchange: Exchange<T>, number: u32, payload: T) -> bool {
    exchange.number == number && exchange.payload == payload && exchange.reply is Awaited
}

/// Whether `exchange` sends a power request under its number and awaits the
/// answer of a graceful operation, and only of one.
pub open spec fn asks_for_power(
    exchange: Exchange<NodePowerRequest>,
    req: NodePowerRequest,
) -> bool {
    &&& exchange.number == 106
    &&& exchange.payload == req
    &&& req is GracefulReboot || req is GracefulShutdown <==> exchange.reply is Awaited
}

/// Whether `install` sends an install request under its number, awaits the
/// verdict, and goes on with as many bytes as the request declares.
pub open spec fn asks_for_install(install: Install, req: NodePackageRequest) -> bool {
    &&& asks(install.request, 109, req)
    &&& req matches NodePackageRequest::Install { size, .. }
    &&& install.state == (InstallState::Requesting { size })
}

/// The payload of a flat request goes out as it is, under the number of the
/// request, and an answer is awaited.
pub proof fn flat_requests_go_out_under_their_numbers<T>(
    conn: Connection,
    payload: T,
    allowlist: Exchange<T>,
    blocklist: Exchange<T>,
    deletion: Exchange<T>,
    filter_rules: Exchange<T>,
    internal_networks: Exchange<T>,
    sampling_policies: Exchange<T>,
)
    requires
        call_ensures(Connection::send_allowlist::<T>, (&conn, payload), allowlist),
        call_ensures(Connection::send_blocklist::<T>, (&conn, payload), blocklist),
        call_ensures(Connection::send_delete_customer_data_cmd::<T>, (&conn, payload), deletion),
        call_ensures(Connection::send_filtering_rules::<T>, (&conn, payload), filter_rules),
        call_ensures(
            Connection::send_internal_network_list::<T>,
            (&conn, payload),
            internal_networks,
        ),
        call_ensures(Connection::send_sampling_policies::<T>, (&conn, payload), sampling_policies),
    ensures
        asks(allowlist, 15, payload),
        asks(blocklist, 16, payload),
        asks(deletion, 22, payload),
        asks(filter_rules, 10, payload),
        asks(internal_networks, 14, payload),
        asks(sampling_policies, 9, payload),
{
}

/// A list of texts goes out encoded, entry by entry, under the number of the
/// request, and a request without arguments with an empty payload. An answer
/// is awaited in each case.
pub proof fn text_lists_go_out_under_their_numbers(
    conn: Connection,
    list: &[String],
    tor_exit_nodes: Exchange<Vec<u8>>,
    trusted_domains: Exchange<Vec<u8>>,
    trusted_user_agents: Exchange<Vec<u8>>,
    config_update: Exchange<Vec<u8>>,
    ping: Exchange<Vec<u8>>,
)
    requires
        call_ensures(Connection::send_tor_exit_node_list, (&conn, list), tor_exit_nodes),
        call_ensures(Connection::send_trusted_domain_list, (&conn, list), trusted_domains),
        call_ensures(Connection::send_trusted_user_agent_list, (&conn, list), trusted_user_agents),
        call_ensures(Connection::send_config_update_cmd, (&conn,), config_update),
        call_ensures(Connection::send_ping, (&conn,), ping),
    ensures
        tor_exit_nodes.number == 8 && tor_exit_nodes.reply is Awaited,
        tor_exit_nodes.payload@ == texts_encoding(Seq::new(list@.len(), |i: int| list@[i]@)),
        trusted_domains.number == 0 && trusted_domains.reply is Awaited,
        trusted_domains.payload@ == texts_encoding(Seq::new(list@.len(), |i: int| list@[i]@)),
        trusted_user_agents.number == 18 && trusted_user_agents.reply is Awaited,
        trusted_user_agents.payload@ == texts_encoding(Seq::new(list@.len(), |i: int| list@[i]@)),
        config_update.number == 12 && config_update.reply is Awaited,
        config_update.payload@ == Seq::<u8>::empty(),
        ping.number == 17 && ping.reply is Awaited,
        ping.payload@ == Seq::<u8>::empty(),
{
    assert(texts(list@) =~= Seq::new(list@.len(), |i: int| list@[i]@));
}

/// A service-control request goes out as it is, under its number, over the connection
/// and over its node handle alike, and an answer is awaited.
pub proof fn service_requests_go_out_unchanged(
    conn: Connection,
    node: Node<'_>,
    req: NodeServiceRequest,
    exchange: Exchange<NodeServiceRequest>,
    by_handle: Exchange<NodeServiceRequest>,
)
    requires
        call_ensures(Connection::node_service, (&conn, req), exchange),
        call_ensures(Node::service, (&node, req), by_handle),
    ensures
        asks(exchange, 100, req),
        asks(by_handle, 100, req),
{
}

/// A network-interface request goes out as it is, under its number, over the connection
/// and over its node handle alike, and an answer is awaited.
pub proof fn network_interface_requests_go_out_unchanged(
    conn: Connection,
    node: Node<'_>,
    req: NodeNetworkInterfaceRequest,
    exchange: Exchange<NodeNetworkInterfaceRequest>,
    by_handle: Exchange<NodeNetworkInterfaceRequest>,
)
    requires
        call_ensures(Connection::node_network_interface, (&conn, req), exchange),
        call_ensures(Node::network_interface, (&node, req), by_handle),
    ensures
        asks(exchange, 101, req),
        asks(by_handle, 101, req),
{
}

/// A hostname request goes out as it is, under its number, over the connection
/// and over its node handle alike, and an answer is awaited.
pub proof fn hostname_requests_go_out_unchanged(
    conn: Connection,
    node: Node<'_>,
    req: NodeHostnameRequest,
    exchange: Exchange<NodeHostnameRequest>,
    by_handle: Exchange<NodeHostnameRequest>,
)
    requires
        call_ensures(Connection::node_hostname, (&conn, req), exchange),
        call_ensures(Node::hostname, (&node, req), by_handle),
    ensures
        asks(exchange, 102, req),
        asks(by_handle, 102, req),
{
}

/// A time-synchronization request goes out as it is, under its number, over the connection
/// and over its node handle alike, and an answer is awaited.
pub proof fn time_sync_requests_go_out_unchanged(
    conn: Connection,
    node: Node<'_>,
    req: NodeTimeSyncRequest,
    exchange: Exchange<NodeTimeSyncRequest>,
    by_handle: Exchange<NodeTimeSyncRequest>,
)
    requires
        call_ensures(Connection::node_time_sync, (&conn, req), exchange),
        call_ensures(Node::time_sync, (&node, req), by_handle),
    ensures
        asks(exchange, 103, req),
        asks(by_handle, 103, req),
{
}

/// A logging request goes out as it is, under its number, over the connection
/// and over its node handle alike, and an answer is awaited.
pub proof fn logging_requests_go_out_unchanged(
    conn: Connection,
    node: Node<'_>,
    req: NodeLoggingRequest,
    exchange: Exchange<NodeLoggingRequest>,
    by_handle: Exchange<NodeLoggingRequest>,
)
    requires
        call_ensures(Connection::node_logging, (&conn, req), exchange),
        call_ensures(Node::logging, (&node, req), by_handle),
    ensures
        asks(exchange, 104, req),
        asks(by_handle, 104, req),
{
}

/// A remote-access request goes out as it is, under its number, over the connection
/// and over its node handle alike, and an answer is awaited.
pub proof fn remote_access_requests_go_out_unchanged(
    conn: Connection,
    node: Node<'_>,
    req: NodeRemoteAccessRequest,
    exchange: Exchange<NodeRemoteAccessRequest>,
    by_handle: Exchange<NodeRemoteAccessRequest>,
)
    requires
        call_ensures(Connection::node_remote_access, (&conn, req), exchange),
        call_ensures(Node::remote_access, (&node, req), by_handle),
    ensures
        asks(exchange, 105, req),
        asks(by_handle, 105, req),
{
}

/// An observation request goes out as it is, under its number, over the connection
/// and over its node handle alike, and an answer is awaited.
pub proof fn observation_requests_go_out_unchanged(
    conn: Connection,
    node: Node<'_>,
    req: NodeObservationRequest,
    exchange: Exchange<NodeObservationRequest>,
    by_handle: Exchange<NodeObservationRequest>,
)
    requires
        call_ensures(Connection::node_observation, (&conn, req), exchange),
        call_ensures(Node::observation, (&node, req), by_handle),
    ensures
        asks(exchange, 107, req),
        asks(by_handle, 107, req),
{
}

/// A version request goes out as it is, under its number, over the connection
/// and over its node handle alike, and an answer is awaited.
pub proof fn version_requests_go_out_unchanged(
    conn: Connection,
    node: Node<'_>,
    req: NodeVersionRequest,
    exchange: Exchange<NodeVersionRequest>,
    by_handle: Exchange<NodeVersionRequest>,
)
    requires
        call_ensures(Connection::node_version, (&conn, req), exchange),
        call_ensures(Node::version, (&node, req), by_handle),
    ensures
        asks(exchange, 108, req),
        asks(by_handle, 108, req),
{
}

/// An enrollment request goes out as it is, under its number, over the connection
/// and over its node handle alike, and an answer is awaited.
pub proof fn enroll_requests_go_out_unchanged(
    conn: Connection,
    node: Node<'_>,
    req: NodeEnrollRequest,
    exchange: Exchange<NodeEnrollRequest>,
    by_handle: Exchange<NodeEnrollRequest>,
)
    requires
        call_ensures(Connection::node_enroll, (&conn, req), exchange),
        call_ensures(Node::enroll, (&node, req), by_handle),
    ensures
        asks(exchange, 110, req),
        asks(by_handle, 110, req),
{
}

/// A power request goes out as it is, under its number, over the connection
/// and over its node handle alike. Only a graceful operation is answered.
pub proof fn power_requests_go_out_unchanged(
    conn: Connection,
    node: Node<'_>,
    req: NodePowerRequest,
    exchange: Exchange<NodePowerRequest>,
    by_handle: Exchange<NodePowerRequest>,
    reboot: Exchange<NodePowerRequest>,
    shutdown: Exchange<NodePowerRequest>,
)
    requires
        call_ensures(Connection::node_power, (&conn, req), exchange),
        call_ensures(Node::power, (&node, req), by_handle),
        call_ensures(Node::reboot, (&node,), reboot),
        call_ensures(Node::shutdown, (&node,), shutdown),
    ensures
        asks_for_power(exchange, req),
        asks_for_power(by_handle, req),
        asks_for_power(reboot, NodePowerRequest::Reboot),
        asks_for_power(shutdown, NodePowerRequest::Shutdown),
{
}

/// The outcome of a power operation is its answer, if there is one.
pub proof fn power_outcome_is_the_answer(
    answer: Option<NodePowerResponse>,
    outcome: NodePowerOutcome,
)
    requires
        call_ensures(power_outcome, (answer,), outcome),
    ensures
        answer is None <==> outcome is Sent,
        answer matches Some(response) ==> outcome == NodePowerOutcome::Response(response),
{
}

/// A package request other than an install goes out as it is, under its
/// number, and an answer is awaited. An install is refused: it goes out only
/// as an install, which refuses every other request.
pub proof fn package_requests_go_out_unchanged(
    conn: Connection,
    node: Node<'_>,
    req: NodePackageRequest,
    unary_r: Result<Exchange<NodePackageRequest>, ApiError>,
    unary_by_handle: Result<Exchange<NodePackageRequest>, ApiError>,
    install_r: Result<Install, ApiError>,
    install_by_handle: Result<Install, ApiError>,
)
    requires
        call_ensures(Connection::node_package, (&conn, req), unary_r),
        call_ensures(Node::package, (&node, req), unary_by_handle),
        call_ensures(Connection::node_package_install, (&conn, req), install_r),
        call_ensures(Node::package_install, (&node, req), install_by_handle),
    ensures
        unary_by_handle == unary_r,
        install_by_handle == install_r,
        req is Install ==> unary_r == Err::<Exchange<NodePackageRequest>, ApiError>(
            ApiError::InstallCarriesPayload,
        ) && install_r is Ok && asks_for_install(install_r->Ok_0, req),
        !(req is Install) ==> install_r == Err::<Install, ApiError>(ApiError::NotAnInstall)
            && unary_r is Ok && asks(unary_r->Ok_0, 109, req),
{
}

/// Installs, and only they, are refused as unary requests and have a size,
/// which is the one they declare.
pub proof fn installs_are_told_apart(
    req: NodePackageRequest,
    rejected: Result<(), ApiError>,
    size: Result<u64, ApiError>,
)
    requires
        call_ensures(reject_install, (&req,), rejected),
        call_ensures(install_size, (&req,), size),
    ensures
        req is Install <==> rejected == Err::<(), ApiError>(ApiError::InstallCarriesPayload),
        !(req is Install) <==> rejected is Ok,
        req matches NodePackageRequest::Install { size: declared, .. } ==> size == Ok::<
            u64,
            ApiError,
        >(declared),
        !(req is Install) <==> size == Err::<u64, ApiError>(ApiError::NotAnInstall),
{
}

/// What the agent answered is handed back as it is: a value as the value, and
/// an error text as the agent's. A failure of the transport is told apart from
/// both.
pub proof fn answers_are_handed_back_unchanged<S>(
    received: Result<Result<S, String>, IoError>,
    r: Result<S, ApiError>,
)
    requires
        call_ensures(response::<S>, (received,), r),
    ensures
        received matches Ok(Ok(value)) ==> r == Ok::<S, ApiError>(value),
        received matches Ok(Err(text)) ==> r == Err::<S, ApiError>(ApiError::Remote(text)),
        received matches Err(e) ==> r == Err::<S, ApiError>(ApiError::Transport(e)),
{
}

/// A request frame is the number in four bytes, the lowest first, and the
/// payload as it is.
pub proof fn request_frame_is_number_and_payload(number: u32, payload: &[u8], frame: Vec<u8>)
    requires
        call_ensures(encode_request, (number, payload), frame),
    ensures
        frame@.len() == 4 + payload@.len(),
        frame@[0] + 256 * (frame@[1] + 256 * (frame@[2] + 256 * frame@[3])) == number,
        frame@.skip(4) == payload@,
{
    reveal_with_fuel(low_bytes, 5);
    assert(frame@.skip(4) =~= payload@);
}

/// What each failure of a request says.
pub proof fn request_failures_say_what_happened(e: ApiError, text: String)
    requires
        call_ensures(ApiError::message, (&e,), text),
    ensures
        e matches ApiError::Denied(denial) ==> text@ == "authorization denied: "@ + denial.reason@,
        e matches ApiError::Remote(said) ==> text@ == said@,
        e matches ApiError::Transport(cause) ==> text@ == cause.message@,
        e is Verdict ==> text@ == "receiving the install preflight verdict"@,
        e is Response ==> text@ == "receiving the install response"@,
        e is Source ==> text@ == "reading the package payload"@,
        e matches ApiError::SourceEnded { sent, size } ==> text@
            == "the package source ended after "@ + decimal(sent as nat) + " of "@ + decimal(
            size as nat,
        ) + " bytes"@,
        e is InstallCarriesPayload ==> text@
            == "an install request carries a payload; use `node_package_install`"@,
        e is NotAnInstall ==> text@
            == "`node_package_install` accepts only an install request; use `node_package`"@,
{
}

/// The manager awaits an answer exactly where the agent sends one, so that
/// neither side waits for a frame that does not come.
pub proof fn manager_awaits_what_the_agent_sends<A, R, P, U, T>(
    scope: Scope,
    code: RequestCode,
    payload: T,
    steps: Seq<Step<A, R, P, U>>,
)
    requires
        serves_one_request(scope, steps),
        steps[0].event matches Event::Received(Ok((n, _))) && n == unary(code, payload).number,
        !(code is NodePower),
    ensures
        frames(steps) >= 1,
        unary(code, payload).reply is Awaited,
        unary(code, payload).payload == payload,
{
    only_immediate_power_goes_unanswered(scope, unary(code, payload).number, steps);
}

/// The manager awaits an answer to a power request exactly where the agent
/// sends one to it, over the whole run that serves the request.
pub proof fn manager_awaits_what_the_agent_sends_of_power<A, R, P, U>(
    scope: Scope,
    req: NodePowerRequest,
    steps: Seq<Step<A, R, P, U>>,
)
    requires
        serves_one_request(scope, steps),
        steps[0].event matches Event::Received(Ok((n, _))) && n == power_exchange(req).number,
        steps.len() >= 2 && steps[1].event == Event::<A, R, P, U>::Parsed(Ok(Args::Power(req))),
    ensures
        power_exchange(req).reply is Awaited <==> frames(steps) >= 1,
        power_exchange(req).payload == req,
{
    only_immediate_power_goes_unanswered(scope, power_exchange(req).number, steps);
}

/// Whether `r` is what a verdict of the authorizer calls for: if it allows the
/// operation, what was planned goes ahead, and otherwise its denial is handed
/// back with nothing to send.
pub open spec fn follows_verdict<T>(
    verdict: Result<(), AuthorizationError>,
    planned: T,
    r: Result<T, ApiError>,
) -> bool {
    match verdict {
        Ok(()) => r == Ok::<T, ApiError>(planned),
        Err(denial) => r == Err::<T, ApiError>(ApiError::Denied(denial)),
    }
}

/// Whether the authorizer was asked for `service` on behalf of `peer`, and `r`
/// follows its verdict.
pub open spec fn asked<A: Authorizer + ?Sized, T>(
    authorizer: &A,
    peer: &PeerContext,
    service: ServiceId,
    planned: T,
    r: Result<T, ApiError>,
) -> bool {
    exists|verdict: Result<(), AuthorizationError>| #[trigger]
        call_ensures(A::authorize, (authorizer, peer, &service), verdict) && follows_verdict(
            verdict,
            planned,
            r,
        )
}

/// Whether the authorizer was asked for `service` in `context`, and `r`
/// follows its verdict.
pub open spec fn asked_in<A: AuthorizerV2 + ?Sized, T>(
    authorizer: &A,
    context: &AuthorizationContext,
    service: ServiceId,
    planned: T,
    r: Result<T, ApiError>,
) -> bool {
    exists|verdict: Result<(), AuthorizationError>| #[trigger]
        call_ensures(A::authorize_with_context, (authorizer, context, &service), verdict)
            && follows_verdict(verdict, planned, r)
}

/// The verdict of the authorizer decides: what is planned goes ahead unchanged
/// if it is allowed, and a denial is handed back as it is.
pub proof fn verdict_decides<A: Authorizer + ?Sized, B: AuthorizerV2 + ?Sized, T>(
    authorizer: &A,
    peer: &PeerContext,
    authorizer_v2: &B,
    context: &AuthorizationContext,
    service: ServiceId,
    planned: T,
    r: Result<T, ApiError>,
    r_in: Result<T, ApiError>,
)
    requires
        call_ensures(authorized::<A, T>, (authorizer, peer, &service, planned), r),
        call_ensures(authorized_in::<B, T>, (authorizer_v2, context, &service, planned), r_in),
    ensures
        asked(authorizer, peer, service, planned, r),
        asked_in(authorizer_v2, context, service, planned, r_in),
{
}

/// A service-control request goes out only if the authorizer allows its operation.
pub proof fn service_requests_are_asked_for<A: Authorizer + ?Sized, B: AuthorizerV2 + ?Sized>(
    conn: Connection,
    node: Node<'_>,
    req: NodeServiceRequest,
    peer: &PeerContext,
    authorizer: &A,
    context: &AuthorizationContext,
    authorizer_v2: &B,
    r: Result<Exchange<NodeServiceRequest>, ApiError>,
    r_in: Result<Exchange<NodeServiceRequest>, ApiError>,
    by_handle: Result<Exchange<NodeServiceRequest>, ApiError>,
    by_handle_in: Result<Exchange<NodeServiceRequest>, ApiError>,
)
    requires
        call_ensures(
            Connection::node_service_authorized::<A>,
            (&conn, req, peer, authorizer),
            r,
        ),
        call_ensures(
            Connection::node_service_with_context::<B>,
            (&conn, req, context, authorizer_v2),
            r_in,
        ),
        call_ensures(
            Node::service_authorized::<A>,
            (&node, req, peer, authorizer),
            by_handle,
        ),
        call_ensures(
            Node::service_with_context::<B>,
            (&node, req, context, authorizer_v2),
            by_handle_in,
        ),
    ensures
        asked(
            authorizer,
            peer,
            req.operation(),
            (Exchange { number: 100, payload: req, reply: Reply::Awaited }),
            r,
        ),
        asked_in(
            authorizer_v2,
            context,
            req.operation(),
            (Exchange { number: 100, payload: req, reply: Reply::Awaited }),
            r_in,
        ),
        asked(
            authorizer,
            peer,
            req.operation(),
            (Exchange { number: 100, payload: req, reply: Reply::Awaited }),
            by_handle,
        ),
        asked_in(
            authorizer_v2,
            context,
            req.operation(),
            (Exchange { number: 100, payload: req, reply: Reply::Awaited }),
            by_handle_in,
        ),
{
}

/// A network-interface request goes out only if the authorizer allows its operation.
pub proof fn network_interface_requests_are_asked_for<
    A: Authorizer + ?Sized,
    B: AuthorizerV2 + ?Sized,
>(
    conn: Connection,
    node: Node<'_>,
    req: NodeNetworkInterfaceRequest,
    peer: &PeerContext,
    authorizer: &A,
    context: &AuthorizationContext,
    authorizer_v2: &B,
    r: Result<Exchange<NodeNetworkInterfaceRequest>, ApiError>,
    r_in: Result<Exchange<NodeNetworkInterfaceRequest>, ApiError>,
    by_handle: Result<Exchange<NodeNetworkInterfaceRequest>, ApiError>,
    by_handle_in: Result<Exchange<NodeNetworkInterfaceRequest>, ApiError>,
)
    requires
        call_ensures(
            Connection::node_network_interface_authorized::<A>,
            (&conn, req, peer, authorizer),
            r,
        ),
        call_ensures(
            Connection::node_network_interface_with_context::<B>,
            (&conn, req, context, authorizer_v2),
            r_in,
        ),
        call_ensures(
            Node::network_interface_authorized::<A>,
            (&node, req, peer, authorizer),
            by_handle,
        ),
        call_ensures(
            Node::network_interface_with_context::<B>,
            (&node, req, context, authorizer_v2),
            by_handle_in,
        ),
    ensures
        asked(
            authorizer,
            peer,
            req.operation(),
            (Exchange { number: 101, payload: req, reply: Reply::Awaited }),
            r,
        ),
        asked_in(
            authorizer_v2,
            context,
            req.operation(),
            (Exchange { number: 101, payload: req, reply: Reply::Awaited }),
            r_in,
        ),
        asked(
            authorizer,
            peer,
            req.operation(),
            (Exchange { number: 101, payload: req, reply: Reply::Awaited }),
            by_handle,
        ),
        asked_in(
            authorizer_v2,
            context,
            req.operation(),
            (Exchange { number: 101, payload: req, reply: Reply::Awaited }),
            by_handle_in,
        ),
{
}

/// A hostname request goes out only if the authorizer allows its operation.
pub proof fn hostname_requests_are_asked_for<A: Authorizer + ?Sized, B: AuthorizerV2 + ?Sized>(
    conn: Connection,
    node: Node<'_>,
    req: NodeHostnameRequest,
    peer: &PeerContext,
    authorizer: &A,
    context: &AuthorizationContext,
    authorizer_v2: &B,
    r: Result<Exchange<NodeHostnameRequest>, ApiError>,
    r_in: Result<Exchange<NodeHostnameRequest>, ApiError>,
    by_handle: Result<Exchange<NodeHostnameRequest>, ApiError>,
    by_handle_in: Result<Exchange<NodeHostnameRequest>, ApiError>,
)
    requires
        call_ensures(
            Connection::node_hostname_authorized::<A>,
            (&conn, req, peer, authorizer),
            r,
        ),
        call_ensures(
            Connection::node_hostname_with_context::<B>,
            (&conn, req, context, authorizer_v2),
            r_in,
        ),
        call_ensures(
            Node::hostname_authorized::<A>,
            (&node, req, peer, authorizer),
            by_handle,
        ),
        call_ensures(
            Node::hostname_with_context::<B>,
            (&node, req, context, authorizer_v2),
            by_handle_in,
        ),
    ensures
        asked(
            authorizer,
            peer,
            req.operation(),
            (Exchange { number: 102, payload: req, reply: Reply::Awaited }),
            r,
        ),
        asked_in(
            authorizer_v2,
            context,
            req.operation(),
            (Exchange { number: 102, payload: req, reply: Reply::Awaited }),
            r_in,
        ),
        asked(
            authorizer,
            peer,
            req.operation(),
            (Exchange { number: 102, payload: req, reply: Reply::Awaited }),
            by_handle,
        ),
        asked_in(
            authorizer_v2,
            context,
            req.operation(),
            (Exchange { number: 102, payload: req, reply: Reply::Awaited }),
            by_handle_in,
        ),
{
}

/// A time-synchronization request goes out only if the authorizer allows its operation.
pub proof fn time_sync_requests_are_asked_for<A: Authorizer + ?Sized, B: AuthorizerV2 + ?Sized>(
    conn: Connection,
    node: Node<'_>,
    req: NodeTimeSyncRequest,
    peer: &PeerContext,
    authorizer: &A,
    context: &AuthorizationContext,
    authorizer_v2: &B,
    r: Result<Exchange<NodeTimeSyncRequest>, ApiError>,
    r_in: Result<Exchange<NodeTimeSyncRequest>, ApiError>,
    by_handle: Result<Exchange<NodeTimeSyncRequest>, ApiError>,
    by_handle_in: Result<Exchange<NodeTimeSyncRequest>, ApiError>,
)
    requires
        call_ensures(
            Connection::node_time_sync_authorized::<A>,
            (&conn, req, peer, authorizer),
            r,
        ),
        call_ensures(
            Connection::node_time_sync_with_context::<B>,
            (&conn, req, context, authorizer_v2),
            r_in,
        ),
        call_ensures(
            Node::time_sync_authorized::<A>,
            (&node, req, peer, authorizer),
            by_handle,
        ),
        call_ensures(
            Node::time_sync_with_context::<B>,
            (&node, req, context, authorizer_v2),
            by_handle_in,
        ),
    ensures
        asked(
            authorizer,
            peer,
            req.operation(),
            (Exchange { number: 103, payload: req, reply: Reply::Awaited }),
            r,
        ),
        asked_in(
            authorizer_v2,
            context,
            req.operation(),
            (Exchange { number: 103, payload: req, reply: Reply::Awaited }),
            r_in,
        ),
        asked(
            authorizer,
            peer,
            req.operation(),
            (Exchange { number: 103, payload: req, reply: Reply::Awaited }),
            by_handle,
        ),
        asked_in(
            authorizer_v2,
            context,
            req.operation(),
            (Exchange { number: 103, payload: req, reply: Reply::Awaited }),
            by_handle_in,
        ),
{
}

/// A logging request goes out only if the authorizer allows its operation.
pub proof fn logging_requests_are_asked_for<A: Authorizer + ?Sized, B: AuthorizerV2 + ?Sized>(
    conn: Connection,
    node: Node<'_>,
    req: NodeLoggingRequest,
    peer: &PeerContext,
    authorizer: &A,
    context: &AuthorizationContext,
    authorizer_v2: &B,
    r: Result<Exchange<NodeLoggingRequest>, ApiError>,
    r_in: Result<Exchange<NodeLoggingRequest>, ApiError>,
    by_handle: Result<Exchange<NodeLoggingRequest>, ApiError>,
    by_handle_in: Result<Exchange<NodeLoggingRequest>, ApiError>,
)
    requires
        call_ensures(
            Connection::node_logging_authorized::<A>,
            (&conn, req, peer, authorizer),
            r,
        ),
        call_ensures(
            Connection::node_logging_with_context::<B>,
            (&conn, req, context, authorizer_v2),
            r_in,
        ),
        call_ensures(
            Node::logging_authorized::<A>,
            (&node, req, peer, authorizer),
            by_handle,
        ),
        call_ensures(
            Node::logging_with_context::<B>,
            (&node, req, context, authorizer_v2),
            by_handle_in,
        ),
    ensures
        asked(
            authorizer,
            peer,
            req.operation(),
            (Exchange { number: 104, payload: req, reply: Reply::Awaited }),
            r,
        ),
        asked_in(
            authorizer_v2,
            context,
            req.operation(),
            (Exchange { number: 104, payload: req, reply: Reply::Awaited }),
            r_in,
        ),
        asked(
            authorizer,
            peer,
            req.operation(),
            (Exchange { number: 104, payload: req, reply: Reply::Awaited }),
            by_handle,
        ),
        asked_in(
            authorizer_v2,
            context,
            req.operation(),
            (Exchange { number: 104, payload: req, reply: Reply::Awaited }),
            by_handle_in,
        ),
{
}

/// A remote-access request goes out only if the authorizer allows its operation.
pub proof fn remote_access_requests_are_asked_for<A: Authorizer + ?Sized, B: AuthorizerV2 + ?Sized>(
    conn: Connection,
    node: Node<'_>,
    req: NodeRemoteAccessRequest,
    peer: &PeerContext,
    authorizer: &A,
    context: &AuthorizationContext,
    authorizer_v2: &B,
    r: Result<Exchange<NodeRemoteAccessRequest>, ApiError>,
    r_in: Result<Exchange<NodeRemoteAccessRequest>, ApiError>,
    by_handle: Result<Exchange<NodeRemoteAccessRequest>, ApiError>,
    by_handle_in: Result<Exchange<NodeRemoteAccessRequest>, ApiError>,
)
    requires
        call_ensures(
            Connection::node_remote_access_authorized::<A>,
            (&conn, req, peer, authorizer),
            r,
        ),
        call_ensures(
            Connection::node_remote_access_with_context::<B>,
            (&conn, req, context, authorizer_v2),
            r_in,
        ),
        call_ensures(
            Node::remote_access_authorized::<A>,
            (&node, req, peer, authorizer),
            by_handle,
        ),
        call_ensures(
            Node::remote_access_with_context::<B>,
            (&node, req, context, authorizer_v2),
            by_handle_in,
        ),
    ensures
        asked(
            authorizer,
            peer,
            req.operation(),
            (Exchange { number: 105, payload: req, reply: Reply::Awaited }),
            r,
        ),
        asked_in(
            authorizer_v2,
            context,
            req.operation(),
            (Exchange { number: 105, payload: req, reply: Reply::Awaited }),
            r_in,
        ),
        asked(
            authorizer,
            peer,
            req.operation(),
            (Exchange { number: 105, payload: req, reply: Reply::Awaited }),
            by_handle,
        ),
        asked_in(
            authorizer_v2,
            context,
            req.operation(),
            (Exchange { number: 105, payload: req, reply: Reply::Awaited }),
            by_handle_in,
        ),
{
}

/// An observation request goes out only if the authorizer allows its operation.
pub proof fn observation_requests_are_asked_for<A: Authorizer + ?Sized, B: AuthorizerV2 + ?Sized>(
    conn: Connection,
    node: Node<'_>,
    req: NodeObservationRequest,
    peer: &PeerContext,
    authorizer: &A,
    context: &AuthorizationContext,
    authorizer_v2: &B,
    r: Result<Exchange<NodeObservationRequest>, ApiError>,
    r_in: Result<Exchange<NodeObservationRequest>, ApiError>,
    by_handle: Result<Exchange<NodeObservationRequest>, ApiError>,
    by_handle_in: Result<Exchange<NodeObservationRequest>, ApiError>,
)
    requires
        call_ensures(
            Connection::node_observation_authorized::<A>,
            (&conn, req, peer, authorizer),
            r,
        ),
        call_ensures(
            Connection::node_observation_with_context::<B>,
            (&conn, req, context, authorizer_v2),
            r_in,
        ),
        call_ensures(
            Node::observation_authorized::<A>,
            (&node, req, peer, authorizer),
            by_handle,
        ),
        call_ensures(
            Node::observation_with_context::<B>,
            (&node, req, context, authorizer_v2),
            by_handle_in,
        ),
    ensures
        asked(
            authorizer,
            peer,
            req.operation(),
            (Exchange { number: 107, payload: req, reply: Reply::Awaited }),
            r,
        ),
        asked_in(
            authorizer_v2,
            context,
            req.operation(),
            (Exchange { number: 107, payload: req, reply: Reply::Awaited }),
            r_in,
        ),
        asked(
            authorizer,
            peer,
            req.operation(),
            (Exchange { number: 107, payload: req, reply: Reply::Awaited }),
            by_handle,
        ),
        asked_in(
            authorizer_v2,
            context,
            req.operation(),
            (Exchange { number: 107, payload: req, reply: Reply::Awaited }),
            by_handle_in,
        ),
{
}

/// A version request goes out only if the authorizer allows its operation.
pub proof fn version_requests_are_asked_for<A: Authorizer + ?Sized, B: AuthorizerV2 + ?Sized>(
    conn: Connection,
    node: Node<'_>,
    req: NodeVersionRequest,
    peer: &PeerContext,
    authorizer: &A,
    context: &AuthorizationContext,
    authorizer_v2: &B,
    r: Result<Exchange<NodeVersionRequest>, ApiError>,
    r_in: Result<Exchange<NodeVersionRequest>, ApiError>,
    by_handle: Result<Exchange<NodeVersionRequest>, ApiError>,
    by_handle_in: Result<Exchange<NodeVersionRequest>, ApiError>,
)
    requires
        call_ensures(
            Connection::node_version_authorized::<A>,
            (&conn, req, peer, authorizer),
            r,
        ),
        call_ensures(
            Connection::node_version_with_context::<B>,
            (&conn, req, context, authorizer_v2),
            r_in,
        ),
        call_ensures(
            Node::version_authorized::<A>,
            (&node, req, peer, authorizer),
            by_handle,
        ),
        call_ensures(
            Node::version_with_context::<B>,
            (&node, req, context, authorizer_v2),
            by_handle_in,
        ),
    ensures
        asked(
            authorizer,
            peer,
            req.operation(),
            (Exchange { number: 108, payload: req, reply: Reply::Awaited }),
            r,
        ),
        asked_in(
            authorizer_v2,
            context,
            req.operation(),
            (Exchange { number: 108, payload: req, reply: Reply::Awaited }),
            r_in,
        ),
        asked(
            authorizer,
            peer,
            req.operation(),
            (Exchange { number: 108, payload: req, reply: Reply::Awaited }),
            by_handle,
        ),
        asked_in(
            authorizer_v2,
            context,
            req.operation(),
            (Exchange { number: 108, payload: req, reply: Reply::Awaited }),
            by_handle_in,
        ),
{
}

/// An enrollment request goes out only if the authorizer allows its operation.
pub proof fn enroll_requests_are_asked_for<A: Authorizer + ?Sized, B: AuthorizerV2 + ?Sized>(
    conn: Connection,
    node: Node<'_>,
    req: NodeEnrollRequest,
    peer: &PeerContext,
    authorizer: &A,
    context: &AuthorizationContext,
    authorizer_v2: &B,
    r: Result<Exchange<NodeEnrollRequest>, ApiError>,
    r_in: Result<Exchange<NodeEnrollRequest>, ApiError>,
    by_handle: Result<Exchange<NodeEnrollRequest>, ApiError>,
    by_handle_in: Result<Exchange<NodeEnrollRequest>, ApiError>,
)
    requires
        call_ensures(
            Connection::node_enroll_authorized::<A>,
            (&conn, req, peer, authorizer),
            r,
        ),
        call_ensures(
            Connection::node_enroll_with_context::<B>,
            (&conn, req, context, authorizer_v2),
            r_in,
        ),
        call_ensures(
            Node::enroll_authorized::<A>,
            (&node, req, peer, authorizer),
            by_handle,
        ),
        call_ensures(
            Node::enroll_with_context::<B>,
            (&node, req, context, authorizer_v2),
            by_handle_in,
        ),
    ensures
        asked(
            authorizer,
            peer,
            req.operation(),
            (Exchange { number: 110, payload: req, reply: Reply::Awaited }),
            r,
        ),
        asked_in(
            authorizer_v2,
            context,
            req.operation(),
            (Exchange { number: 110, payload: req, reply: Reply::Awaited }),
            r_in,
        ),
        asked(
            authorizer,
            peer,
            req.operation(),
            (Exchange { number: 110, payload: req, reply: Reply::Awaited }),
            by_handle,
        ),
        asked_in(
            authorizer_v2,
            context,
            req.operation(),
            (Exchange { number: 110, payload: req, reply: Reply::Awaited }),
            by_handle_in,
        ),
{
}

/// A power request goes out only if the authorizer allows its operation.
pub proof fn power_requests_are_asked_for<A: Authorizer + ?Sized, B: AuthorizerV2 + ?Sized>(
    conn: Connection,
    node: Node<'_>,
    req: NodePowerRequest,
    peer: &PeerContext,
    authorizer: &A,
    context: &AuthorizationContext,
    authorizer_v2: &B,
    r: Result<Exchange<NodePowerRequest>, ApiError>,
    r_in: Result<Exchange<NodePowerRequest>, ApiError>,
    by_handle: Result<Exchange<NodePowerRequest>, ApiError>,
    by_handle_in: Result<Exchange<NodePowerRequest>, ApiError>,
)
    requires
        call_ensures(
            Connection::node_power_authorized::<A>,
            (&conn, req, peer, authorizer),
            r,
        ),
        call_ensures(
            Connection::node_power_with_context::<B>,
            (&conn, req, context, authorizer_v2),
            r_in,
        ),
        call_ensures(
            Node::power_authorized::<A>,
            (&node, req, peer, authorizer),
            by_handle,
        ),
        call_ensures(
            Node::power_with_context::<B>,
            (&node, req, context, authorizer_v2),
            by_handle_in,
        ),
    ensures
        asked(
            authorizer,
            peer,
            req.operation(),
            (Exchange {
                number: 106,
                payload: req,
                reply: if req is GracefulReboot || req is GracefulShutdown {
                    Reply::Awaited
                } else {
                    Reply::NotAwaited
                },
            }),
            r,
        ),
        asked_in(
            authorizer_v2,
            context,
            req.operation(),
            (Exchange {
                number: 106,
                payload: req,
                reply: if req is GracefulReboot || req is GracefulShutdown {
                    Reply::Awaited
                } else {
                    Reply::NotAwaited
                },
            }),
            r_in,
        ),
        asked(
            authorizer,
            peer,
            req.operation(),
            (Exchange {
                number: 106,
                payload: req,
                reply: if req is GracefulReboot || req is GracefulShutdown {
                    Reply::Awaited
                } else {
                    Reply::NotAwaited
                },
            }),
            by_handle,
        ),
        asked_in(
            authorizer_v2,
            context,
            req.operation(),
            (Exchange {
                number: 106,
                payload: req,
                reply: if req is GracefulReboot || req is GracefulShutdown {
                    Reply::Awaited
                } else {
                    Reply::NotAwaited
                },
            }),
            by_handle_in,
        ),
{
}

/// A reboot goes out only if the authorizer allows that operation.
pub proof fn reboot_is_asked_for<A: Authorizer + ?Sized, B: AuthorizerV2 + ?Sized>(
    node: Node<'_>,
    peer: &PeerContext,
    authorizer: &A,
    context: &AuthorizationContext,
    authorizer_v2: &B,
    by_handle: Result<Exchange<NodePowerRequest>, ApiError>,
    by_handle_in: Result<Exchange<NodePowerRequest>, ApiError>,
)
    requires
        call_ensures(
            Node::reboot_authorized::<A>,
            (&node, peer, authorizer),
            by_handle,
        ),
        call_ensures(
            Node::reboot_with_context::<B>,
            (&node, context, authorizer_v2),
            by_handle_in,
        ),
    ensures
        asked(
            authorizer,
            peer,
            NodePowerRequest::Reboot.operation(),
            (Exchange {
                number: 106,
                payload: NodePowerRequest::Reboot,
                reply: Reply::NotAwaited,
            }),
            by_handle,
        ),
        asked_in(
            authorizer_v2,
            context,
            NodePowerRequest::Reboot.operation(),
            (Exchange {
                number: 106,
                payload: NodePowerRequest::Reboot,
                reply: Reply::NotAwaited,
            }),
            by_handle_in,
        ),
{
}

/// A shutdown goes out only if the authorizer allows that operation.
pub proof fn shutdown_is_asked_for<A: Authorizer + ?Sized, B: AuthorizerV2 + ?Sized>(
    node: Node<'_>,
    peer: &PeerContext,
    authorizer: &A,
    context: &AuthorizationContext,
    authorizer_v2: &B,
    by_handle: Result<Exchange<NodePowerRequest>, ApiError>,
    by_handle_in: Result<Exchange<NodePowerRequest>, ApiError>,
)
    requires
        call_ensures(
            Node::shutdown_authorized::<A>,
            (&node, peer, authorizer),
            by_handle,
        ),
        call_ensures(
            Node::shutdown_with_context::<B>,
            (&node, context, authorizer_v2),
            by_handle_in,
        ),
    ensures
        asked(
            authorizer,
            peer,
            NodePowerRequest::Shutdown.operation(),
            (Exchange {
                number: 106,
                payload: NodePowerRequest::Shutdown,
                reply: Reply::NotAwaited,
            }),
            by_handle,
        ),
        asked_in(
            authorizer_v2,
            context,
            NodePowerRequest::Shutdown.operation(),
            (Exchange {
                number: 106,
                payload: NodePowerRequest::Shutdown,
                reply: Reply::NotAwaited,
            }),
            by_handle_in,
        ),
{
}

/// A package request other than an install goes out only if the authorizer
/// allows its operation.
pub proof fn package_requests_are_asked_for<A: Authorizer + ?Sized, B: AuthorizerV2 + ?Sized>(
    conn: Connection,
    node: Node<'_>,
    req: NodePackageRequest,
    peer: &PeerContext,
    authorizer: &A,
    context: &AuthorizationContext,
    authorizer_v2: &B,
    r: Result<Exchange<NodePackageRequest>, ApiError>,
    r_in: Result<Exchange<NodePackageRequest>, ApiError>,
    by_handle: Result<Exchange<NodePackageRequest>, ApiError>,
    by_handle_in: Result<Exchange<NodePackageRequest>, ApiError>,
)
    requires
        !(req is Install),
        call_ensures(
            Connection::node_package_authorized::<A>,
            (&conn, req, peer, authorizer),
            r,
        ),
        call_ensures(
            Connection::node_package_with_context::<B>,
            (&conn, req, context, authorizer_v2),
            r_in,
        ),
        call_ensures(
            Node::package_authorized::<A>,
            (&node, req, peer, authorizer),
            by_handle,
        ),
        call_ensures(
            Node::package_with_context::<B>,
            (&node, req, context, authorizer_v2),
            by_handle_in,
        ),
    ensures
        asked(
            authorizer,
            peer,
            req.operation(),
            (Exchange { number: 109, payload: req, reply: Reply::Awaited }),
            r,
        ),
        asked_in(
            authorizer_v2,
            context,
            req.operation(),
            (Exchange { number: 109, payload: req, reply: Reply::Awaited }),
            r_in,
        ),
        asked(
            authorizer,
            peer,
            req.operation(),
            (Exchange { number: 109, payload: req, reply: Reply::Awaited }),
            by_handle,
        ),
        asked_in(
            authorizer_v2,
            context,
            req.operation(),
            (Exchange { number: 109, payload: req, reply: Reply::Awaited }),
            by_handle_in,
        ),
{
}

/// An install goes ahead only if the authorizer allows it.
pub proof fn installs_are_asked_for<A: Authorizer + ?Sized, B: AuthorizerV2 + ?Sized>(
    conn: Connection,
    node: Node<'_>,
    req: NodePackageRequest,
    peer: &PeerContext,
    authorizer: &A,
    context: &AuthorizationContext,
    authorizer_v2: &B,
    r: Result<Install, ApiError>,
    r_in: Result<Install, ApiError>,
    by_handle: Result<Install, ApiError>,
    by_handle_in: Result<Install, ApiError>,
)
    requires
        req is Install,
        call_ensures(
            Connection::node_package_install_authorized::<A>,
            (&conn, req, peer, authorizer),
            r,
        ),
        call_ensures(
            Connection::node_package_install_with_context::<B>,
            (&conn, req, context, authorizer_v2),
            r_in,
        ),
        call_ensures(
            Node::package_install_authorized::<A>,
            (&node, req, peer, authorizer),
            by_handle,
        ),
        call_ensures(
            Node::package_install_with_context::<B>,
            (&node, req, context, authorizer_v2),
            by_handle_in,
        ),
    ensures
        asked(
            authorizer,
            peer,
            req.operation(),
            (Install {
                request: Exchange { number: 109, payload: req, reply: Reply::Awaited },
                state: InstallState::Requesting { size: req->Install_size },
            }),
            r,
        ),
        asked_in(
            authorizer_v2,
            context,
            req.operation(),
            (Install {
                request: Exchange { number: 109, payload: req, reply: Reply::Awaited },
                state: InstallState::Requesting { size: req->Install_size },
            }),
            r_in,
        ),
        asked(
            authorizer,
            peer,
            req.operation(),
            (Install {
                request: Exchange { number: 109, payload: req, reply: Reply::Awaited },
                state: InstallState::Requesting { size: req->Install_size },
            }),
            by_handle,
        ),
        asked_in(
            authorizer_v2,
            context,
            req.operation(),
            (Install {
                request: Exchange { number: 109, payload: req, reply: Reply::Awaited },
                state: InstallState::Requesting { size: req->Install_size },
            }),
            by_handle_in,
        ),
{
}

/// An install that is issued as a unary request, and any other request that is
/// issued as an install, is refused whatever the authorizer would say.
pub proof fn mismatched_package_requests_are_refused<
    A: Authorizer + ?Sized,
    B: AuthorizerV2 + ?Sized,
>(
    conn: Connection,
    node: Node<'_>,
    req: NodePackageRequest,
    peer: &PeerContext,
    authorizer: &A,
    context: &AuthorizationContext,
    authorizer_v2: &B,
    unary_r: Result<Exchange<NodePackageRequest>, ApiError>,
    unary_in: Result<Exchange<NodePackageRequest>, ApiError>,
    unary_by_handle: Result<Exchange<NodePackageRequest>, ApiError>,
    unary_by_handle_in: Result<Exchange<NodePackageRequest>, ApiError>,
    install_r: Result<Install, ApiError>,
    install_in: Result<Install, ApiError>,
    install_by_handle: Result<Install, ApiError>,
    install_by_handle_in: Result<Install, ApiError>,
)
    requires
        call_ensures(
            Connection::node_package_authorized::<A>,
            (&conn, req, peer, authorizer),
            unary_r,
        ),
        call_ensures(
            Connection::node_package_with_context::<B>,
            (&conn, req, context, authorizer_v2),
            unary_in,
        ),
        call_ensures(
            Node::package_authorized::<A>,
            (&node, req, peer, authorizer),
            unary_by_handle,
        ),
        call_ensures(
            Node::package_with_context::<B>,
            (&node, req, context, authorizer_v2),
            unary_by_handle_in,
        ),
        call_ensures(
            Connection::node_package_install_authorized::<A>,
            (&conn, req, peer, authorizer),
            install_r,
        ),
        call_ensures(
            Connection::node_package_install_with_context::<B>,
            (&conn, req, context, authorizer_v2),
            install_in,
        ),
        call_ensures(
            Node::package_install_authorized::<A>,
            (&node, req, peer, authorizer),
            install_by_handle,
        ),
        call_ensures(
            Node::package_install_with_context::<B>,
            (&node, req, context, authorizer_v2),
            install_by_handle_in,
        ),
    ensures
        req is Install ==> unary_r == Err::<Exchange<NodePackageRequest>, ApiError>(
            ApiError::InstallCarriesPayload,
        ),
        req is Install ==> unary_in == Err::<Exchange<NodePackageRequest>, ApiError>(
            ApiError::InstallCarriesPayload,
        ),
        req is Install ==> unary_by_handle == Err::<Exchange<NodePackageRequest>, ApiError>(
            ApiError::InstallCarriesPayload,
        ),
        req is Install ==> unary_by_handle_in == Err::<Exchange<NodePackageRequest>, ApiError>(
            ApiError::InstallCarriesPayload,
        ),
        !(req is Install) ==> install_r == Err::<Install, ApiError>(ApiError::NotAnInstall),
        !(req is Install) ==> install_in == Err::<Install, ApiError>(ApiError::NotAnInstall),
        !(req is Install) ==> install_by_handle == Err::<Install, ApiError>(ApiError::NotAnInstall),
        !(req is Install) ==> install_by_handle_in == Err::<Install, ApiError>(
            ApiError::NotAnInstall,
        ),
{
}

} // verus!
