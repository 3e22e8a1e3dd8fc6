//! Service-family entry point for node operations.

use vstd::prelude::*;

use super::api::{ApiError, Exchange, Install, Reply};
use super::Connection;
use crate::auth::{AuthorizationContext, Authorizer, AuthorizerV2, PeerContext};
use crate::client::RequestCode;
use crate::types::node::{
    NodeEnrollRequest, NodeHostnameRequest, NodeLoggingRequest, NodeNetworkInterfaceRequest,
    NodeObservationRequest, NodePackageRequest, NodePackageResponse, NodePowerRequest,
    NodePowerResponse, NodeRemoteAccessRequest, NodeRequest, NodeServiceRequest,
    NodeTimeSyncRequest, NodeVersionRequest,
};

verus! {

use super::api::{
    enroll_exchange, install_of, is_authorized, is_authorized_in, power_exchange, unary,
};

/// The outcome of a power operation.
#[derive(Debug)]
pub enum NodePowerOutcome {
    /// The request was sent; an immediate operation is not answered.
    Sent,
    /// The answer to a graceful operation.
    Response(NodePowerResponse),
}

/// A verdict that ends an install before any byte of the package moves.
#[derive(Clone, Debug, Eq, PartialEq)]
pub enum TerminalPreflight {
    AlreadyApplied,
    InsufficientDiskSpace { filesystem: String, required: u64, available: u64 },
}

/// The outcome of an install.
#[derive(Clone, Debug, Eq, PartialEq)]
pub enum InstallOutcome {
    /// The verdict was terminal.
    Preflight(TerminalPreflight),
    /// The package was transferred, and this is the answer.
    Applied(NodePackageResponse),
}

/// The node operations of one connection.
#[derive(Clone, Copy, Debug)]
pub struct Node<'a> {
    conn: &'a Connection,
}

impl<'a> Node<'a> {
    /// The connection that the operations go over.
    pub closed spec fn connection(self) -> Connection {
        *self.conn
    }

    /// Creates the handle for `conn`.
    pub fn new(conn: &'a Connection) -> (node: Self)
        ensures
            node.connection() == *conn,
    {
        Node { conn }
    }

    /// Sends a power-control request. An immediate operation is not answered.
    pub fn power(&self, req: NodePowerRequest) -> (exchange: Exchange<NodePowerRequest>)
        ensures
            exchange == power_exchange(req),
    {
        self.conn.node_power(req)
    }

    /// Reboots the node at once. The request is not answered.
    pub fn reboot(&self) -> (exchange: Exchange<NodePowerRequest>)
        ensures
            exchange == power_exchange(NodePowerRequest::Reboot),
            exchange.reply == Reply::NotAwaited,
    {
        self.power(NodePowerRequest::Reboot)
    }

    /// Shuts the node down at once. The request is not answered.
    pub fn shutdown(&self) -> (exchange: Exchange<NodePowerRequest>)
        ensures
            exchange == power_exchange(NodePowerRequest::Shutdown),
            exchange.reply == Reply::NotAwaited,
    {
        self.power(NodePowerRequest::Shutdown)
    }

    /// Sends an enrollment request.
    pub fn enroll(&self, req: NodeEnrollRequest) -> (exchange: Exchange<NodeEnrollRequest>)
        ensures
            exchange == enroll_exchange(req),
    {
        self.conn.node_enroll(req)
    }

    /// Sends a unary package request. An install is refused.
    pub fn package(&self, req: NodePackageRequest) -> (r: Result<
        Exchange<NodePackageRequest>,
        ApiError,
    >)
        ensures
            req is Install ==> r == Err::<Exchange<NodePackageRequest>, ApiError>(
                ApiError::InstallCarriesPayload,
            ),
            !(req is Install) ==> r == Ok::<Exchange<NodePackageRequest>, ApiError>(
                unary(RequestCode::NodePackage, req),
            ),
    {
        self.conn.node_package(req)
    }

    /// Installs a package. Any other request is refused.
    pub fn package_install(&self, req: NodePackageRequest) -> (r: Result<Install, ApiError>)
        ensures
            req is Install ==> r == Ok::<Install, ApiError>(install_of(req)),
            !(req is Install) ==> r == Err::<Install, ApiError>(ApiError::NotAnInstall),
    {
        self.conn.node_package_install(req)
    }

    /// Sends a node service-control request.
    pub fn service(&self, req: NodeServiceRequest) -> (exchange: Exchange<NodeServiceRequest>)
        ensures
            exchange == unary(RequestCode::NodeService, req),
    {
        self.conn.node_service(req)
    }

    /// Sends a network-interface management request.
    pub fn network_interface(&self, req: NodeNetworkInterfaceRequest) -> (exchange: Exchange<
        NodeNetworkInterfaceRequest,
    >)
        ensures
            exchange == unary(RequestCode::NodeNetworkInterface, req),
    {
        self.conn.node_network_interface(req)
    }

    /// Sends a hostname management request.
    pub fn hostname(&self, req: NodeHostnameRequest) -> (exchange: Exchange<NodeHostnameRequest>)
        ensures
            exchange == unary(RequestCode::NodeHostname, req),
    {
        self.conn.node_hostname(req)
    }

    /// Sends a time-synchronization request.
    pub fn time_sync(&self, req: NodeTimeSyncRequest) -> (exchange: Exchange<NodeTimeSyncRequest>)
        ensures
            exchange == unary(RequestCode::NodeTimeSync, req),
    {
        self.conn.node_time_sync(req)
    }

    /// Sends a logging-configuration request.
    pub fn logging(&self, req: NodeLoggingRequest) -> (exchange: Exchange<NodeLoggingRequest>)
        ensures
            exchange == unary(RequestCode::NodeLogging, req),
    {
        self.conn.node_logging(req)
    }

    /// Sends a remote-access request.
    pub fn remote_access(&self, req: NodeRemoteAccessRequest) -> (exchange: Exchange<
        NodeRemoteAccessRequest,
    >)
        ensures
            exchange == unary(RequestCode::NodeRemoteAccess, req),
    {
        self.conn.node_remote_access(req)
    }

    /// Sends a host-observation request.
    pub fn observation(&self, req: NodeObservationRequest) -> (exchange: Exchange<
        NodeObservationRequest,
    >)
        ensures
            exchange == unary(RequestCode::NodeObservation, req),
    {
        self.conn.node_observation(req)
    }

    /// Sends a version-management request.
    pub fn version(&self, req: NodeVersionRequest) -> (exchange: Exchange<NodeVersionRequest>)
        ensures
            exchange == unary(RequestCode::NodeVersion, req),
    {
        self.conn.node_version(req)
    }

    /// Sends a node service-control request, if the authorizer allows its operation
    /// to `peer`.
    pub fn service_authorized<A: Authorizer + ?Sized>(
        &self,
        req: NodeServiceRequest,
        peer: &PeerContext,
        authorizer: &A,
    ) -> (r: Result<Exchange<NodeServiceRequest>, ApiError>)
        ensures
            is_authorized(
                authorizer,
                peer,
                req.operation(),
                unary(RequestCode::NodeService, req),
                r,
            ),
    {
        self.conn.node_service_authorized(req, peer, authorizer)
    }

    /// Sends a network-interface management request, if the authorizer allows its operation
    /// to `peer`.
    pub fn network_interface_authorized<A: Authorizer + ?Sized>(
        &self,
        req: NodeNetworkInterfaceRequest,
        peer: &PeerContext,
        authorizer: &A,
    ) -> (r: Result<Exchange<NodeNetworkInterfaceRequest>, ApiError>)
        ensures
            is_authorized(
                authorizer,
                peer,
                req.operation(),
                unary(RequestCode::NodeNetworkInterface, req),
                r,
            ),
    {
        self.conn.node_network_interface_authorized(req, peer, authorizer)
    }

    /// Sends a hostname management request, if the authorizer allows its operation
    /// to `peer`.
    pub fn hostname_authorized<A: Authorizer + ?Sized>(
        &self,
        req: NodeHostnameRequest,
        peer: &PeerContext,
        authorizer: &A,
    ) -> (r: Result<Exchange<NodeHostnameRequest>, ApiError>)
        ensures
            is_authorized(
                authorizer,
                peer,
                req.operation(),
                unary(RequestCode::NodeHostname, req),
                r,
            ),
    {
        self.conn.node_hostname_authorized(req, peer, authorizer)
    }

    /// Sends a time-synchronization request, if the authorizer allows its operation
    /// to `peer`.
    pub fn time_sync_authorized<A: Authorizer + ?Sized>(
        &self,
        req: NodeTimeSyncRequest,
        peer: &PeerContext,
        authorizer: &A,
    ) -> (r: Result<Exchange<NodeTimeSyncRequest>, ApiError>)
        ensures
            is_authorized(
                authorizer,
                peer,
                req.operation(),
                unary(RequestCode::NodeTimeSync, req),
                r,
            ),
    {
        self.conn.node_time_sync_authorized(req, peer, authorizer)
    }

    /// Sends a logging-configuration request, if the authorizer allows its operation
    /// to `peer`.
    pub fn logging_authorized<A: Authorizer + ?Sized>(
        &self,
        req: NodeLoggingRequest,
        peer: &PeerContext,
        authorizer: &A,
    ) -> (r: Result<Exchange<NodeLoggingRequest>, ApiError>)
        ensures
            is_authorized(
                authorizer,
                peer,
                req.operation(),
                unary(RequestCode::NodeLogging, req),
                r,
            ),
    {
        self.conn.node_logging_authorized(req, peer, authorizer)
    }

    /// Sends a remote-access request, if the authorizer allows its operation
    /// to `peer`.
    pub fn remote_access_authorized<A: Authorizer + ?Sized>(
        &self,
        req: NodeRemoteAccessRequest,
        peer: &PeerContext,
        authorizer: &A,
    ) -> (r: Result<Exchange<NodeRemoteAccessRequest>, ApiError>)
        ensures
            is_authorized(
                authorizer,
                peer,
                req.operation(),
                unary(RequestCode::NodeRemoteAccess, req),
                r,
            ),
    {
        self.conn.node_remote_access_authorized(req, peer, authorizer)
    }

    /// Sends a power-control request, if the authorizer allows its operation
    /// to `peer`.
    pub fn power_authorized<A: Authorizer + ?Sized>(
        &self,
        req: NodePowerRequest,
        peer: &PeerContext,
        authorizer: &A,
    ) -> (r: Result<Exchange<NodePowerRequest>, ApiError>)
        ensures
            is_authorized(authorizer, peer, req.operation(), power_exchange(req), r),
    {
        self.conn.node_power_authorized(req, peer, authorizer)
    }

    /// Sends a host-observation request, if the authorizer allows its operation
    /// to `peer`.
    pub fn observation_authorized<A: Authorizer + ?Sized>(
        &self,
        req: NodeObservationRequest,
        peer: &PeerContext,
        authorizer: &A,
    ) -> (r: Result<Exchange<NodeObservationRequest>, ApiError>)
        ensures
            is_authorized(
                authorizer,
                peer,
                req.operation(),
                unary(RequestCode::NodeObservation, req),
                r,
            ),
    {
        self.conn.node_observation_authorized(req, peer, authorizer)
    }

    /// Sends a version-management request, if the authorizer allows its operation
    /// to `peer`.
    pub fn version_authorized<A: Authorizer + ?Sized>(
        &self,
        req: NodeVersionRequest,
        peer: &PeerContext,
        authorizer: &A,
    ) -> (r: Result<Exchange<NodeVersionRequest>, ApiError>)
        ensures
            is_authorized(
                authorizer,
                peer,
                req.operation(),
                unary(RequestCode::NodeVersion, req),
                r,
            ),
    {
        self.conn.node_version_authorized(req, peer, authorizer)
    }

    /// Sends an enrollment request, if the authorizer allows its operation
    /// to `peer`.
    pub fn enroll_authorized<A: Authorizer + ?Sized>(
        &self,
        req: NodeEnrollRequest,
        peer: &PeerContext,
        authorizer: &A,
    ) -> (r: Result<Exchange<NodeEnrollRequest>, ApiError>)
        ensures
            is_authorized(authorizer, peer, req.operation(), enroll_exchange(req), r),
    {
        self.conn.node_enroll_authorized(req, peer, authorizer)
    }

    /// Reboots the node at once, if the authorizer allows it to `peer`.
    pub fn reboot_authorized<A: Authorizer + ?Sized>(
        &self,
        peer: &PeerContext,
        authorizer: &A,
    ) -> (r: Result<Exchange<NodePowerRequest>, ApiError>)
        ensures
            is_authorized(
                authorizer, peer,
                NodePowerRequest::Reboot.operation(),
                power_exchange(NodePowerRequest::Reboot),
                r,
            ),
    {
        self.power_authorized(NodePowerRequest::Reboot, peer, authorizer)
    }

    /// Shuts the node down at once, if the authorizer allows it to `peer`.
    pub fn shutdown_authorized<A: Authorizer + ?Sized>(
        &self,
        peer: &PeerContext,
        authorizer: &A,
    ) -> (r: Result<Exchange<NodePowerRequest>, ApiError>)
        ensures
            is_authorized(
                authorizer, peer,
                NodePowerRequest::Shutdown.operation(),
                power_exchange(NodePowerRequest::Shutdown),
                r,
            ),
    {
        self.power_authorized(NodePowerRequest::Shutdown, peer, authorizer)
    }

    /// Sends a unary package request, if the authorizer allows its operation
    /// to `peer`. An install is refused without asking.
    pub fn package_authorized<A: Authorizer + ?Sized>(
        &self,
        req: NodePackageRequest,
        peer: &PeerContext,
        authorizer: &A,
    ) -> (r: Result<Exchange<NodePackageRequest>, ApiError>)
        ensures
            req is Install ==> r == Err::<Exchange<NodePackageRequest>, ApiError>(
                ApiError::InstallCarriesPayload,
            ),
            !(req is Install) ==> is_authorized(
                authorizer,
                peer,
                req.operation(),
                unary(RequestCode::NodePackage, req),
                r,
            ),
    {
        self.conn.node_package_authorized(req, peer, authorizer)
    }

    /// Installs a package, if the authorizer allows it to `peer`.
    /// Any other request is refused without asking.
    pub fn package_install_authorized<A: Authorizer + ?Sized>(
        &self,
        req: NodePackageRequest,
        peer: &PeerContext,
        authorizer: &A,
    ) -> (r: Result<Install, ApiError>)
        ensures
            req is Install ==> is_authorized(authorizer, peer, req.operation(), install_of(req), r),
            !(req is Install) ==> r == Err::<Install, ApiError>(ApiError::NotAnInstall),
    {
        self.conn.node_package_install_authorized(req, peer, authorizer)
    }

    /// Sends a node service-control request, if the authorizer allows its operation
    /// in `auth_ctx`.
    pub fn service_with_context<A: AuthorizerV2 + ?Sized>(
        &self,
        req: NodeServiceRequest,
        auth_ctx: &AuthorizationContext,
        authorizer: &A,
    ) -> (r: Result<Exchange<NodeServiceRequest>, ApiError>)
        ensures
            is_authorized_in(
                authorizer,
                auth_ctx,
                req.operation(),
                unary(RequestCode::NodeService, req),
                r,
            ),
    {
        self.conn.node_service_with_context(req, auth_ctx, authorizer)
    }

    /// Sends a network-interface management request, if the authorizer allows its operation
    /// in `auth_ctx`.
    pub fn network_interface_with_context<A: AuthorizerV2 + ?Sized>(
        &self,
        req: NodeNetworkInterfaceRequest,
        auth_ctx: &AuthorizationContext,
        authorizer: &A,
    ) -> (r: Result<Exchange<NodeNetworkInterfaceRequest>, ApiError>)
        ensures
            is_authorized_in(
                authorizer,
                auth_ctx,
                req.operation(),
                unary(RequestCode::NodeNetworkInterface, req),
                r,
            ),
    {
        self.conn.node_network_interface_with_context(req, auth_ctx, authorizer)
    }

    /// Sends a hostname management request, if the authorizer allows its operation
    /// in `auth_ctx`.
    pub fn hostname_with_context<A: AuthorizerV2 + ?Sized>(
        &self,
        req: NodeHostnameRequest,
        auth_ctx: &AuthorizationContext,
        authorizer: &A,
    ) -> (r: Result<Exchange<NodeHostnameRequest>, ApiError>)
        ensures
            is_authorized_in(
                authorizer,
                auth_ctx,
                req.operation(),
                unary(RequestCode::NodeHostname, req),
                r,
            ),
    {
        self.conn.node_hostname_with_context(req, auth_ctx, authorizer)
    }

    /// Sends a time-synchronization request, if the authorizer allows its operation
    /// in `auth_ctx`.
    pub fn time_sync_with_context<A: AuthorizerV2 + ?Sized>(
        &self,
        req: NodeTimeSyncRequest,
        auth_ctx: &AuthorizationContext,
        authorizer: &A,
    ) -> (r: Result<Exchange<NodeTimeSyncRequest>, ApiError>)
        ensures
            is_authorized_in(
                authorizer,
                auth_ctx,
                req.operation(),
                unary(RequestCode::NodeTimeSync, req),
                r,
            ),
    {
        self.conn.node_time_sync_with_context(req, auth_ctx, authorizer)
    }

    /// Sends a logging-configuration request, if the authorizer allows its operation
    /// in `auth_ctx`.
    pub fn logging_with_context<A: AuthorizerV2 + ?Sized>(
        &self,
        req: NodeLoggingRequest,
        auth_ctx: &AuthorizationContext,
        authorizer: &A,
    ) -> (r: Result<Exchange<NodeLoggingRequest>, ApiError>)
        ensures
            is_authorized_in(
                authorizer,
                auth_ctx,
                req.operation(),
                unary(RequestCode::NodeLogging, req),
                r,
            ),
    {
        self.conn.node_logging_with_context(req, auth_ctx, authorizer)
    }

    /// Sends a remote-access request, if the authorizer allows its operation
    /// in `auth_ctx`.
    pub fn remote_access_with_context<A: AuthorizerV2 + ?Sized>(
        &self,
        req: NodeRemoteAccessRequest,
        auth_ctx: &AuthorizationContext,
        authorizer: &A,
    ) -> (r: Result<Exchange<NodeRemoteAccessRequest>, ApiError>)
        ensures
            is_authorized_in(
                authorizer,
                auth_ctx,
                req.operation(),
                unary(RequestCode::NodeRemoteAccess, req),
                r,
            ),
    {
        self.conn.node_remote_access_with_context(req, auth_ctx, authorizer)
    }

    /// Sends a power-control request, if the authorizer allows its operation
    /// in `auth_ctx`.
    pub fn power_with_context<A: AuthorizerV2 + ?Sized>(
        &self,
        req: NodePowerRequest,
        auth_ctx: &AuthorizationContext,
        authorizer: &A,
    ) -> (r: Result<Exchange<NodePowerRequest>, ApiError>)
        ensures
            is_authorized_in(authorizer, auth_ctx, req.operation(), power_exchange(req), r),
    {
        self.conn.node_power_with_context(req, auth_ctx, authorizer)
    }

    /// Sends a host-observation request, if the authorizer allows its operation
    /// in `auth_ctx`.
    pub fn observation_with_context<A: AuthorizerV2 + ?Sized>(
        &self,
        req: NodeObservationRequest,
        auth_ctx: &AuthorizationContext,
        authorizer: &A,
    ) -> (r: Result<Exchange<NodeObservationRequest>, ApiError>)
        ensures
            is_authorized_in(
                authorizer,
                auth_ctx,
                req.operation(),
                unary(RequestCode::NodeObservation, req),
                r,
            ),
    {
        self.conn.node_observation_with_context(req, auth_ctx, authorizer)
    }

    /// Sends a version-management request, if the authorizer allows its operation
    /// in `auth_ctx`.
    pub fn version_with_context<A: AuthorizerV2 + ?Sized>(
        &self,
        req: NodeVersionRequest,
        auth_ctx: &AuthorizationContext,
        authorizer: &A,
    ) -> (r: Result<Exchange<NodeVersionRequest>, ApiError>)
        ensures
            is_authorized_in(
                authorizer,
                auth_ctx,
                req.operation(),
                unary(RequestCode::NodeVersion, req),
                r,
            ),
    {
        self.conn.node_version_with_context(req, auth_ctx, authorizer)
    }

    /// Sends an enrollment request, if the authorizer allows its operation
    /// in `auth_ctx`.
    pub fn enroll_with_context<A: AuthorizerV2 + ?Sized>(
        &self,
        req: NodeEnrollRequest,
        auth_ctx: &AuthorizationContext,
        authorizer: &A,
    ) -> (r: Result<Exchange<NodeEnrollRequest>, ApiError>)
        ensures
            is_authorized_in(authorizer, auth_ctx, req.operation(), enroll_exchange(req), r),
    {
        self.conn.node_enroll_with_context(req, auth_ctx, authorizer)
    }

    /// Reboots the node at once, if the authorizer allows it in `auth_ctx`.
    pub fn reboot_with_context<A: AuthorizerV2 + ?Sized>(
        &self,
        auth_ctx: &AuthorizationContext,
        authorizer: &A,
    ) -> (r: Result<Exchange<NodePowerRequest>, ApiError>)
        ensures
            is_authorized_in(
                authorizer, auth_ctx,
                NodePowerRequest::Reboot.operation(),
                power_exchange(NodePowerRequest::Reboot),
                r,
            ),
    {
        self.power_with_context(NodePowerRequest::Reboot, auth_ctx, authorizer)
    }

    /// Shuts the node down at once, if the authorizer allows it in `auth_ctx`.
    pub fn shutdown_with_context<A: AuthorizerV2 + ?Sized>(
        &self,
        auth_ctx: &AuthorizationContext,
        authorizer: &A,
    ) -> (r: Result<Exchange<NodePowerRequest>, ApiError>)
        ensures
            is_authorized_in(
                authorizer, auth_ctx,
                NodePowerRequest::Shutdown.operation(),
                power_exchange(NodePowerRequest::Shutdown),
                r,
            ),
    {
        self.power_with_context(NodePowerRequest::Shutdown, auth_ctx, authorizer)
    }

    /// Sends a unary package request, if the authorizer allows its operation
    /// in `auth_ctx`. An install is refused without asking.
    pub fn package_with_context<A: AuthorizerV2 + ?Sized>(
        &self,
        req: NodePackageRequest,
        auth_ctx: &AuthorizationContext,
        authorizer: &A,
    ) -> (r: Result<Exchange<NodePackageRequest>, ApiError>)
        ensures
            req is Install ==> r == Err::<Exchange<NodePackageRequest>, ApiError>(
                ApiError::InstallCarriesPayload,
            ),
            !(req is Install) ==> is_authorized_in(
                authorizer,
                auth_ctx,
                req.operation(),
                unary(RequestCode::NodePackage, req),
                r,
            ),
    {
        self.conn.node_package_with_context(req, auth_ctx, authorizer)
    }

    /// Installs a package, if the authorizer allows it in `auth_ctx`.
    /// Any other request is refused without asking.
    pub fn package_install_with_context<A: AuthorizerV2 + ?Sized>(
        &self,
        req: NodePackageRequest,
        auth_ctx: &AuthorizationContext,
        authorizer: &A,
    ) -> (r: Result<Install, ApiError>)
        ensures
            req is Install ==> is_authorized_in(
                authorizer,
                auth_ctx,
                req.operation(),
                install_of(req),
                r,
            ),
            !(req is Install) ==> r == Err::<Install, ApiError>(ApiError::NotAnInstall),
    {
        self.conn.node_package_install_with_context(req, auth_ctx, authorizer)
    }
}

} // verus!
