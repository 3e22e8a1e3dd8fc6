//! Requests and responses of the node service family.

use vstd::prelude::*;

use crate::service_id::ServiceId;

verus! {

/// A request of the node service family. Each one names the operation that
/// its authorization is keyed by.
pub trait NodeRequest {
    /// The operation that this request asks for.
    spec fn operation(self) -> ServiceId;

    /// Returns the operation that this request asks for.
    fn service_id(&self) -> (id: ServiceId)
        ensures
            id == self.operation(),
    ;
}

/// Controls a service of the node.
#[derive(Clone, Debug, Eq, PartialEq)]
pub enum NodeServiceRequest {
    Start { service: String },
    Stop { service: String },
    Status { service: String },
    Restart { service: String },
}

impl NodeRequest for NodeServiceRequest {
    open spec fn operation(self) -> ServiceId {
        ServiceId {
            family: "node.service",
            method: match self {
                NodeServiceRequest::Start { .. } => "start",
                NodeServiceRequest::Stop { .. } => "stop",
                NodeServiceRequest::Status { .. } => "status",
                NodeServiceRequest::Restart { .. } => "restart",
            },
        }
    }

    fn service_id(&self) -> (id: ServiceId) {
        let method = match self {
            NodeServiceRequest::Start { .. } => "start",
            NodeServiceRequest::Stop { .. } => "stop",
            NodeServiceRequest::Status { .. } => "status",
            NodeServiceRequest::Restart { .. } => "restart",
        };
        ServiceId { family: "node.service", method }
    }
}

/// The configuration of a network interface.
#[derive(Clone, Debug, Eq, PartialEq)]
pub struct NodeNetworkInterfaceConfig {
    pub addresses: Vec<String>,
    pub dhcp4: Option<bool>,
    pub gateway4: Option<String>,
    pub nameservers: Vec<String>,
}

/// Manages a network interface of the node.
#[derive(Clone, Debug, Eq, PartialEq)]
pub enum NodeNetworkInterfaceRequest {
    List { prefix: Option<String> },
    Get { device: String },
    Change { device: String, config: NodeNetworkInterfaceConfig },
}

impl NodeRequest for NodeNetworkInterfaceRequest {
    open spec fn operation(self) -> ServiceId {
        ServiceId {
            family: "node.network_interface",
            method: match self {
                NodeNetworkInterfaceRequest::List { .. } => "list",
                NodeNetworkInterfaceRequest::Get { .. } => "get",
                NodeNetworkInterfaceRequest::Change { .. } => "set",
            },
        }
    }

    fn service_id(&self) -> (id: ServiceId) {
        let method = match self {
            NodeNetworkInterfaceRequest::List { .. } => "list",
            NodeNetworkInterfaceRequest::Get { .. } => "get",
            NodeNetworkInterfaceRequest::Change { .. } => "set",
        };
        ServiceId { family: "node.network_interface", method }
    }
}

/// Manages the hostname of the node.
#[derive(Clone, Debug, Eq, PartialEq)]
pub enum NodeHostnameRequest {
    Get,
    Change { hostname: String },
}

impl NodeRequest for NodeHostnameRequest {
    open spec fn operation(self) -> ServiceId {
        ServiceId {
            family: "node.hostname",
            method: match self {
                NodeHostnameRequest::Get => "get",
                NodeHostnameRequest::Change { .. } => "set",
            },
        }
    }

    fn service_id(&self) -> (id: ServiceId) {
        let method = match self {
            NodeHostnameRequest::Get => "get",
            NodeHostnameRequest::Change { .. } => "set",
        };
        ServiceId { family: "node.hostname", method }
    }
}

/// Manages the time synchronization of the node.
#[derive(Clone, Debug, Eq, PartialEq)]
pub enum NodeTimeSyncRequest {
    Get,
    Change { servers: Vec<String> },
    Enable,
    Disable,
    Status,
}

impl NodeRequest for NodeTimeSyncRequest {
    open spec fn operation(self) -> ServiceId {
        ServiceId {
            family: "node.time_sync",
            method: match self {
                NodeTimeSyncRequest::Get => "get",
                NodeTimeSyncRequest::Change { .. } => "set",
                NodeTimeSyncRequest::Enable => "enable",
                NodeTimeSyncRequest::Disable => "disable",
                NodeTimeSyncRequest::Status => "status",
            },
        }
    }

    fn service_id(&self) -> (id: ServiceId) {
        let method = match self {
            NodeTimeSyncRequest::Get => "get",
            NodeTimeSyncRequest::Change { .. } => "set",
            NodeTimeSyncRequest::Enable => "enable",
            NodeTimeSyncRequest::Disable => "disable",
            NodeTimeSyncRequest::Status => "status",
        };
        ServiceId { family: "node.time_sync", method }
    }
}

/// Manages the logging of the node.
#[derive(Clone, Debug, Eq, PartialEq)]
pub enum NodeLoggingRequest {
    Get,
    Change { endpoints: Vec<String> },
    Clear,
    Restart,
}

impl NodeRequest for NodeLoggingRequest {
    open spec fn operation(self) -> ServiceId {
        ServiceId {
            family: "node.logging",
            method: match self {
                NodeLoggingRequest::Get => "get",
                NodeLoggingRequest::Change { .. } => "set",
                NodeLoggingRequest::Clear => "clear",
                NodeLoggingRequest::Restart => "restart",
            },
        }
    }

    fn service_id(&self) -> (id: ServiceId) {
        let method = match self {
            NodeLoggingRequest::Get => "get",
            NodeLoggingRequest::Change { .. } => "set",
            NodeLoggingRequest::Clear => "clear",
            NodeLoggingRequest::Restart => "restart",
        };
        ServiceId { family: "node.logging", method }
    }
}

/// The configuration of the remote access.
#[derive(Clone, Copy, Debug, Eq, PartialEq)]
pub struct NodeRemoteAccessConfig {
    pub port: u16,
}

/// Manages the remote access of the node.
#[derive(Clone, Debug, Eq, PartialEq)]
pub enum NodeRemoteAccessRequest {
    Get,
    Change { config: NodeRemoteAccessConfig },
    Restart,
}

impl NodeRequest for NodeRemoteAccessRequest {
    open spec fn operation(self) -> ServiceId {
        ServiceId {
            family: "node.remote_access",
            method: match self {
                NodeRemoteAccessRequest::Get => "get",
                NodeRemoteAccessRequest::Change { .. } => "set",
                NodeRemoteAccessRequest::Restart => "restart",
            },
        }
    }

    fn service_id(&self) -> (id: ServiceId) {
        let method = match self {
            NodeRemoteAccessRequest::Get => "get",
            NodeRemoteAccessRequest::Change { .. } => "set",
            NodeRemoteAccessRequest::Restart => "restart",
        };
        ServiceId { family: "node.remote_access", method }
    }
}

/// Controls the power of the node.
#[derive(Clone, Copy, Debug, Eq, PartialEq, Structural)]
pub enum NodePowerRequest {
    Reboot,
    Shutdown,
    GracefulReboot,
    GracefulShutdown,
}

impl NodeRequest for NodePowerRequest {
    open spec fn operation(self) -> ServiceId {
        ServiceId {
            family: "node.power",
            method: match self {
                NodePowerRequest::Reboot => "reboot",
                NodePowerRequest::Shutdown => "shutdown",
                NodePowerRequest::GracefulReboot => "graceful_reboot",
                NodePowerRequest::GracefulShutdown => "graceful_shutdown",
            },
        }
    }

    fn service_id(&self) -> (id: ServiceId) {
        let method = match self {
            NodePowerRequest::Reboot => "reboot",
            NodePowerRequest::Shutdown => "shutdown",
            NodePowerRequest::GracefulReboot => "graceful_reboot",
            NodePowerRequest::GracefulShutdown => "graceful_shutdown",
        };
        ServiceId { family: "node.power", method }
    }
}

/// The answer to a power-control request.
#[derive(Clone, Copy, Debug, Eq, PartialEq, Structural)]
pub enum NodePowerResponse {
    Initiated,
}

/// Observes the node.
#[derive(Clone, Copy, Debug, Eq, PartialEq, Structural)]
pub enum NodeObservationRequest {
    ProcessList,
    ResourceUsage,
    Uptime,
}

impl NodeRequest for NodeObservationRequest {
    open spec fn operation(self) -> ServiceId {
        ServiceId {
            family: "node.observation",
            method: match self {
                NodeObservationRequest::ProcessList => "process_list",
                NodeObservationRequest::ResourceUsage => "resource_usage",
                NodeObservationRequest::Uptime => "uptime",
            },
        }
    }

    fn service_id(&self) -> (id: ServiceId) {
        let method = match self {
            NodeObservationRequest::ProcessList => "process_list",
            NodeObservationRequest::ResourceUsage => "resource_usage",
            NodeObservationRequest::Uptime => "uptime",
        };
        ServiceId { family: "node.observation", method }
    }
}

/// The answer to an observation request. The readings of one process, `P`,
/// and of the resource usage, `U`, are carried through unread.
#[derive(Clone, Debug, Eq, PartialEq)]
pub enum NodeObservationResponse<P, U> {
    ProcessList { processes: Vec<P> },
    ResourceUsage { hostname: String, resource_usage: U },
    Uptime { seconds: u64 },
}

/// Manages the versions of the node.
#[derive(Clone, Debug, Eq, PartialEq)]
pub enum NodeVersionRequest {
    Get,
    SetOsVersion { version: String },
    SetProductVersion { version: String },
}

impl NodeRequest for NodeVersionRequest {
    open spec fn operation(self) -> ServiceId {
        ServiceId {
            family: "node.version",
            method: match self {
                NodeVersionRequest::Get => "get",
                NodeVersionRequest::SetOsVersion { .. } => "set_os_version",
                NodeVersionRequest::SetProductVersion { .. } => "set_product_version",
            },
        }
    }

    fn service_id(&self) -> (id: ServiceId) {
        let method = match self {
            NodeVersionRequest::Get => "get",
            NodeVersionRequest::SetOsVersion { .. } => "set_os_version",
            NodeVersionRequest::SetProductVersion { .. } => "set_product_version",
        };
        ServiceId { family: "node.version", method }
    }
}

/// What a service consumes to obtain its certificate.
#[derive(Clone, Debug, Eq, PartialEq)]
pub struct BootstrapMaterial {
    pub role_id: String,
    pub wrapped_secret_id: String,
    pub ca_anchor: Vec<u8>,
    /// The granted deadline, as a timestamp such as
    /// `2026-01-02T03:04:05.123456789Z`.
    pub expires_at: String,
}

/// What an agent does if the new version fails its health gate.
#[derive(Clone, Copy, Debug, Eq, PartialEq, Structural)]
pub enum FailurePolicy {
    Rollback,
    Hold,
}

/// Manages the packages of the node.
#[derive(Clone, Debug, Eq, PartialEq)]
pub enum NodePackageRequest {
    /// Installs or updates a package whose `size` bytes follow on the same
    /// stream.
    Install {
        target: String,
        instance: Option<u32>,
        version: String,
        commit: String,
        size: u64,
        idempotency_key: String,
        bootstrap_material: Option<BootstrapMaterial>,
        on_failure: FailurePolicy,
    },
    /// Removes one installed instance.
    Remove { target: String, instance: Option<u32>, idempotency_key: String },
    /// Lists the installed packages.
    ListInstalled,
    /// Reports the state of one installed instance.
    Status { target: String, instance: Option<u32> },
}

impl NodeRequest for NodePackageRequest {
    open spec fn operation(self) -> ServiceId {
        ServiceId {
            family: "node.package",
            method: match self {
                NodePackageRequest::Install { .. } => "install",
                NodePackageRequest::Remove { .. } => "remove",
                NodePackageRequest::ListInstalled => "list",
                NodePackageRequest::Status { .. } => "status",
            },
        }
    }

    fn service_id(&self) -> (id: ServiceId) {
        let method = match self {
            NodePackageRequest::Install { .. } => "install",
            NodePackageRequest::Remove { .. } => "remove",
            NodePackageRequest::ListInstalled => "list",
            NodePackageRequest::Status { .. } => "status",
        };
        ServiceId { family: "node.package", method }
    }
}

/// The verdict of an agent on an install request, before any byte of the
/// package moves.
#[derive(Clone, Debug, Eq, PartialEq)]
pub enum InstallPreflight {
    /// The agent needs the package.
    Proceed,
    /// The build is installed and its unit has not failed.
    AlreadyApplied,
    /// The package does not fit.
    InsufficientDiskSpace { filesystem: String, required: u64, available: u64 },
}

/// The install and run state of one instance.
#[derive(Clone, Copy, Debug, Eq, PartialEq, Structural)]
pub enum Lifecycle {
    NotInstalled,
    Installing,
    Running,
    Stopped,
    Failed,
    Removing,
    /// A state that is not known here.
    Unknown,
}

/// The number that a state travels as.
pub open spec fn lifecycle_number(state: Lifecycle) -> u8 {
    match state {
        Lifecycle::NotInstalled => 0,
        Lifecycle::Installing => 1,
        Lifecycle::Running => 2,
        Lifecycle::Stopped => 3,
        Lifecycle::Failed => 4,
        Lifecycle::Removing => 5,
        Lifecycle::Unknown => u8::MAX,
    }
}

impl Lifecycle {
    /// Returns the number that this state travels as.
    pub fn number(self) -> (n: u8)
        ensures
            n == lifecycle_number(self),
    {
        match self {
            Lifecycle::NotInstalled => 0,
            Lifecycle::Installing => 1,
            Lifecycle::Running => 2,
            Lifecycle::Stopped => 3,
            Lifecycle::Failed => 4,
            Lifecycle::Removing => 5,
            Lifecycle::Unknown => u8::MAX,
        }
    }

    /// Returns the state that travels as `n`. A number that is not known
    /// gives `Unknown` rather than a failure.
    pub fn from_number(n: u8) -> (state: Lifecycle)
        ensures
            state != Lifecycle::Unknown ==> lifecycle_number(state) == n,
            state == Lifecycle::Unknown ==> forall|known: Lifecycle|
                known != Lifecycle::Unknown ==> #[trigger] lifecycle_number(known) != n,
    {
        match n {
            0 => Lifecycle::NotInstalled,
            1 => Lifecycle::Installing,
            2 => Lifecycle::Running,
            3 => Lifecycle::Stopped,
            4 => Lifecycle::Failed,
            5 => Lifecycle::Removing,
            _ => Lifecycle::Unknown,
        }
    }
}

/// An address that an instance is listening on.
#[derive(Clone, Debug, Eq, PartialEq)]
pub struct BoundAddr {
    pub name: String,
    pub addr: String,
}

/// The state of one instance, as the agent observes it.
#[derive(Clone, Debug, Eq, PartialEq)]
pub struct PackageState {
    pub version: String,
    pub commit: String,
    pub lifecycle: Lifecycle,
    pub bound_addrs: Vec<BoundAddr>,
}

/// One installed instance.
#[derive(Clone, Debug, Eq, PartialEq)]
pub struct InstalledPackage {
    pub target: String,
    pub instance: Option<u32>,
    pub state: PackageState,
}

/// Why an apply failed.
#[derive(Clone, Debug, Eq, PartialEq)]
pub enum NodePackageError {
    /// The package is not the one that was asked for.
    TargetMismatch,
    /// A first install came without its enrollment material.
    MissingBootstrapMaterial,
    /// The enrollment material lapsed before it was used.
    BootstrapMaterialExpired,
    /// The package does not fit.
    InsufficientDiskSpace { filesystem: String, required: u64, available: u64 },
    /// The trust set is not newer than the active one.
    StaleTrustSet { active_epoch: u64 },
    /// The manifest has a format that the agent cannot decode.
    UnsupportedManifestFormat { active_epoch: u64 },
}

/// The answer to a package request.
#[derive(Clone, Debug, Eq, PartialEq)]
pub enum NodePackageResponse {
    Done,
    /// The apply tears down this channel, so no later answer follows.
    Accepted,
    TrustActive { active_epoch: u64 },
    Installed(Vec<InstalledPackage>),
    State(PackageState),
    Failed(NodePackageError),
}

/// How enrollment material reaches its target.
#[derive(Clone, Copy, Debug, Eq, PartialEq, Structural)]
pub enum DeliveryMode {
    LocalFile,
    RemoteBootstrap,
}

/// The hook that reloads a service.
#[derive(Clone, Debug, Eq, PartialEq)]
pub struct ReloadHook(pub String);

/// The group that a certificate belongs to.
#[derive(Clone, Debug, Eq, PartialEq)]
pub struct CertGroup(pub String);

/// What a service identity is registered as.
#[derive(Clone, Debug, Eq, PartialEq)]
pub struct ServiceSpec {
    pub component: String,
    pub service_name: String,
    pub reload: ReloadHook,
    pub cert_group: Option<CertGroup>,
}

/// A span of time.
#[derive(Clone, Copy, Debug, Eq, PartialEq)]
pub struct Span {
    pub secs: u64,
    pub nanos: u32,
}

/// Enrolls a service identity at the registrar.
#[derive(Clone, Debug, Eq, PartialEq)]
pub enum NodeEnrollRequest {
    Register {
        service_name: String,
        delivery_mode: DeliveryMode,
        host: String,
        instance: Option<u32>,
        registration: ServiceSpec,
        wrap_ttl: Span,
        idempotency_key: String,
    },
    Deregister {
        service_name: String,
        host: String,
        instance: Option<u32>,
        idempotency_key: String,
    },
}

impl NodeRequest for NodeEnrollRequest {
    open spec fn operation(self) -> ServiceId {
        ServiceId {
            family: "node.enroll",
            method: match self {
                NodeEnrollRequest::Register { .. } => "register",
                NodeEnrollRequest::Deregister { .. } => "deregister",
            },
        }
    }

    fn service_id(&self) -> (id: ServiceId) {
        let method = match self {
            NodeEnrollRequest::Register { .. } => "register",
            NodeEnrollRequest::Deregister { .. } => "deregister",
        };
        ServiceId { family: "node.enroll", method }
    }
}

} // verus!
