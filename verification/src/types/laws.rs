//! What holds of the operations that node requests name.

use vstd::prelude::*;

use super::capability;
use super::node::{
    Lifecycle, NodeEnrollRequest, NodeHostnameRequest, NodeLoggingRequest,
    NodeNetworkInterfaceRequest, NodeObservationRequest, NodePackageRequest, NodePowerRequest,
    NodeRemoteAccessRequest, NodeRequest, NodeServiceRequest, NodeTimeSyncRequest,
    NodeVersionRequest,
};
use crate::service_id::ServiceId;

verus! {

use super::node::lifecycle_number;

/// Every power request names an operation of its own, so that a policy can
/// allow one and refuse the others.
pub proof fn power_operations_are_distinct(a: NodePowerRequest, b: NodePowerRequest)
    requires
        a.operation() == b.operation(),
    ensures
        a == b,
{
    reveal_strlit("reboot");
    reveal_strlit("shutdown");
    reveal_strlit("graceful_reboot");
    reveal_strlit("graceful_shutdown");
    assert(a.operation().method@.len() == b.operation().method@.len());
}

/// Every observation names an operation of its own.
pub proof fn observation_operations_are_distinct(
    a: NodeObservationRequest,
    b: NodeObservationRequest,
)
    requires
        a.operation() == b.operation(),
    ensures
        a == b,
{
    reveal_strlit("process_list");
    reveal_strlit("resource_usage");
    reveal_strlit("uptime");
    assert(a.operation().method@.len() == b.operation().method@.len());
}

/// Every kind of package request names an operation of its own.
pub proof fn package_operations_are_distinct(a: NodePackageRequest, b: NodePackageRequest)
    requires
        a.operation() == b.operation(),
    ensures
        a is Install <==> b is Install,
        a is Remove <==> b is Remove,
        a is ListInstalled <==> b is ListInstalled,
        a is Status <==> b is Status,
{
    reveal_strlit("install");
    reveal_strlit("remove");
    reveal_strlit("list");
    reveal_strlit("status");
    assert(a.operation().method@.len() == b.operation().method@.len());
    assert(a.operation().method@[0] == b.operation().method@[0]);
}

/// Every kind of enrollment request names an operation of its own.
pub proof fn enroll_operations_are_distinct(a: NodeEnrollRequest, b: NodeEnrollRequest)
    requires
        a.operation() == b.operation(),
    ensures
        a is Register <==> b is Register,
        a is Deregister <==> b is Deregister,
{
    reveal_strlit("register");
    reveal_strlit("deregister");
    assert(a.operation().method@.len() == b.operation().method@.len());
}

/// Every kind of service request names an operation of its own.
pub proof fn service_operations_are_distinct(a: NodeServiceRequest, b: NodeServiceRequest)
    requires
        a.operation() == b.operation(),
    ensures
        a is Start <==> b is Start,
        a is Stop <==> b is Stop,
        a is Status <==> b is Status,
        a is Restart <==> b is Restart,
{
    reveal_strlit("start");
    reveal_strlit("stop");
    reveal_strlit("status");
    reveal_strlit("restart");
    assert(a.operation().method@.len() == b.operation().method@.len());
}

/// Every kind of network-interface request names an operation of its own.
pub proof fn network_interface_operations_are_distinct(
    a: NodeNetworkInterfaceRequest,
    b: NodeNetworkInterfaceRequest,
)
    requires
        a.operation() == b.operation(),
    ensures
        a is List <==> b is List,
        a is Get <==> b is Get,
        a is Change <==> b is Change,
{
    reveal_strlit("list");
    reveal_strlit("get");
    reveal_strlit("set");
    assert(a.operation().method@[0] == b.operation().method@[0]);
}

/// Every kind of hostname request names an operation of its own.
pub proof fn hostname_operations_are_distinct(a: NodeHostnameRequest, b: NodeHostnameRequest)
    requires
        a.operation() == b.operation(),
    ensures
        a is Get <==> b is Get,
        a is Change <==> b is Change,
{
    reveal_strlit("get");
    reveal_strlit("set");
    assert(a.operation().method@[0] == b.operation().method@[0]);
}

/// Every kind of time-synchronization request names an operation of its own.
pub proof fn time_sync_operations_are_distinct(a: NodeTimeSyncRequest, b: NodeTimeSyncRequest)
    requires
        a.operation() == b.operation(),
    ensures
        a is Get <==> b is Get,
        a is Change <==> b is Change,
        a is Enable <==> b is Enable,
        a is Disable <==> b is Disable,
        a is Status <==> b is Status,
{
    reveal_strlit("get");
    reveal_strlit("set");
    reveal_strlit("enable");
    reveal_strlit("disable");
    reveal_strlit("status");
    assert(a.operation().method@.len() == b.operation().method@.len());
    assert(a.operation().method@[0] == b.operation().method@[0]);
}

/// Every kind of logging request names an operation of its own.
pub proof fn logging_operations_are_distinct(a: NodeLoggingRequest, b: NodeLoggingRequest)
    requires
        a.operation() == b.operation(),
    ensures
        a is Get <==> b is Get,
        a is Change <==> b is Change,
        a is Clear <==> b is Clear,
        a is Restart <==> b is Restart,
{
    reveal_strlit("get");
    reveal_strlit("set");
    reveal_strlit("clear");
    reveal_strlit("restart");
    assert(a.operation().method@[0] == b.operation().method@[0]);
}

/// Every kind of remote-access request names an operation of its own.
pub proof fn remote_access_operations_are_distinct(
    a: NodeRemoteAccessRequest,
    b: NodeRemoteAccessRequest,
)
    requires
        a.operation() == b.operation(),
    ensures
        a is Get <==> b is Get,
        a is Change <==> b is Change,
        a is Restart <==> b is Restart,
{
    reveal_strlit("get");
    reveal_strlit("set");
    reveal_strlit("restart");
    assert(a.operation().method@[0] == b.operation().method@[0]);
}

/// Every kind of version request names an operation of its own.
pub proof fn version_operations_are_distinct(a: NodeVersionRequest, b: NodeVersionRequest)
    requires
        a.operation() == b.operation(),
    ensures
        a is Get <==> b is Get,
        a is SetOsVersion <==> b is SetOsVersion,
        a is SetProductVersion <==> b is SetProductVersion,
{
    reveal_strlit("get");
    reveal_strlit("set_os_version");
    reveal_strlit("set_product_version");
    assert(a.operation().method@.len() == b.operation().method@.len());
}

/// Two lifecycle states never travel as the same number.
pub proof fn lifecycle_numbers_are_distinct(a: Lifecycle, b: Lifecycle)
    requires
        lifecycle_number(a) == lifecycle_number(b),
    ensures
        a == b,
{
}

/// An operation has the dotted name of its family and its method, which is
/// what a policy reads.
pub proof fn operations_are_named_by_family_and_method(id: ServiceId, name: String)
    requires
        call_ensures(ServiceId::name, (&id,), name),
    ensures
        name@ == id.family@.push('.') + id.method@,
{
    reveal_strlit(".");
    assert(id.family@ + "."@ =~= id.family@.push('.'));
}

/// The names that service requests are authorized under.
pub proof fn service_operations_are_named(req: NodeServiceRequest, id: ServiceId, name: String)
    requires
        call_ensures(<NodeServiceRequest as NodeRequest>::service_id, (&req,), id),
        call_ensures(ServiceId::name, (&id,), name),
    ensures
        id == req.operation(),
        id.family@ == "node.service"@,
        req is Start ==> id.method@ == "start"@,
        req is Start ==> name@ == "node.service.start"@,
        req is Stop ==> id.method@ == "stop"@,
        req is Stop ==> name@ == "node.service.stop"@,
        req is Status ==> id.method@ == "status"@,
        req is Status ==> name@ == "node.service.status"@,
        req is Restart ==> id.method@ == "restart"@,
        req is Restart ==> name@ == "node.service.restart"@,
{
    reveal_strlit(".");
    reveal_strlit("node.service");
    reveal_strlit("start");
    reveal_strlit("node.service.start");
    reveal_strlit("stop");
    reveal_strlit("node.service.stop");
    reveal_strlit("status");
    reveal_strlit("node.service.status");
    reveal_strlit("restart");
    reveal_strlit("node.service.restart");
}

/// The names that network-interface requests are authorized under.
pub proof fn network_interface_operations_are_named(
    req: NodeNetworkInterfaceRequest,
    id: ServiceId,
    name: String,
)
    requires
        call_ensures(<NodeNetworkInterfaceRequest as NodeRequest>::service_id, (&req,), id),
        call_ensures(ServiceId::name, (&id,), name),
    ensures
        id == req.operation(),
        id.family@ == "node.network_interface"@,
        req is List ==> id.method@ == "list"@,
        req is List ==> name@ == "node.network_interface.list"@,
        req is Get ==> id.method@ == "get"@,
        req is Get ==> name@ == "node.network_interface.get"@,
        req is Change ==> id.method@ == "set"@,
        req is Change ==> name@ == "node.network_interface.set"@,
{
    reveal_strlit(".");
    reveal_strlit("node.network_interface");
    reveal_strlit("list");
    reveal_strlit("node.network_interface.list");
    reveal_strlit("get");
    reveal_strlit("node.network_interface.get");
    reveal_strlit("set");
    reveal_strlit("node.network_interface.set");
}

/// The names that hostname requests are authorized under.
pub proof fn hostname_operations_are_named(req: NodeHostnameRequest, id: ServiceId, name: String)
    requires
        call_ensures(<NodeHostnameRequest as NodeRequest>::service_id, (&req,), id),
        call_ensures(ServiceId::name, (&id,), name),
    ensures
        id == req.operation(),
        id.family@ == "node.hostname"@,
        req is Get ==> id.method@ == "get"@,
        req is Get ==> name@ == "node.hostname.get"@,
        req is Change ==> id.method@ == "set"@,
        req is Change ==> name@ == "node.hostname.set"@,
{
    reveal_strlit(".");
    reveal_strlit("node.hostname");
    reveal_strlit("get");
    reveal_strlit("node.hostname.get");
    reveal_strlit("set");
    reveal_strlit("node.hostname.set");
}

/// The names that time-synchronization requests are authorized under.
pub proof fn time_sync_operations_are_named(req: NodeTimeSyncRequest, id: ServiceId, name: String)
    requires
        call_ensures(<NodeTimeSyncRequest as NodeRequest>::service_id, (&req,), id),
        call_ensures(ServiceId::name, (&id,), name),
    ensures
        id == req.operation(),
        id.family@ == "node.time_sync"@,
        req is Get ==> id.method@ == "get"@,
        req is Get ==> name@ == "node.time_sync.get"@,
        req is Change ==> id.method@ == "set"@,
        req is Change ==> name@ == "node.time_sync.set"@,
        req is Enable ==> id.method@ == "enable"@,
        req is Enable ==> name@ == "node.time_sync.enable"@,
        req is Disable ==> id.method@ == "disable"@,
        req is Disable ==> name@ == "node.time_sync.disable"@,
        req is Status ==> id.method@ == "status"@,
        req is Status ==> name@ == "node.time_sync.status"@,
{
    reveal_strlit(".");
    reveal_strlit("node.time_sync");
    reveal_strlit("get");
    reveal_strlit("node.time_sync.get");
    reveal_strlit("set");
    reveal_strlit("node.time_sync.set");
    reveal_strlit("enable");
    reveal_strlit("node.time_sync.enable");
    reveal_strlit("disable");
    reveal_strlit("node.time_sync.disable");
    reveal_strlit("status");
    reveal_strlit("node.time_sync.status");
}

/// The names that logging requests are authorized under.
pub proof fn logging_operations_are_named(req: NodeLoggingRequest, id: ServiceId, name: String)
    requires
        call_ensures(<NodeLoggingRequest as NodeRequest>::service_id, (&req,), id),
        call_ensures(ServiceId::name, (&id,), name),
    ensures
        id == req.operation(),
        id.family@ == "node.logging"@,
        req is Get ==> id.method@ == "get"@,
        req is Get ==> name@ == "node.logging.get"@,
        req is Change ==> id.method@ == "set"@,
        req is Change ==> name@ == "node.logging.set"@,
        req is Clear ==> id.method@ == "clear"@,
        req is Clear ==> name@ == "node.logging.clear"@,
        req is Restart ==> id.method@ == "restart"@,
        req is Restart ==> name@ == "node.logging.restart"@,
{
    reveal_strlit(".");
    reveal_strlit("node.logging");
    reveal_strlit("get");
    reveal_strlit("node.logging.get");
    reveal_strlit("set");
    reveal_strlit("node.logging.set");
    reveal_strlit("clear");
    reveal_strlit("node.logging.clear");
    reveal_strlit("restart");
    reveal_strlit("node.logging.restart");
}

/// The names that remote-access requests are authorized under.
pub proof fn remote_access_operations_are_named(
    req: NodeRemoteAccessRequest,
    id: ServiceId,
    name: String,
)
    requires
        call_ensures(<NodeRemoteAccessRequest as NodeRequest>::service_id, (&req,), id),
        call_ensures(ServiceId::name, (&id,), name),
    ensures
        id == req.operation(),
        id.family@ == "node.remote_access"@,
        req is Get ==> id.method@ == "get"@,
        req is Get ==> name@ == "node.remote_access.get"@,
        req is Change ==> id.method@ == "set"@,
        req is Change ==> name@ == "node.remote_access.set"@,
        req is Restart ==> id.method@ == "restart"@,
        req is Restart ==> name@ == "node.remote_access.restart"@,
{
    reveal_strlit(".");
    reveal_strlit("node.remote_access");
    reveal_strlit("get");
    reveal_strlit("node.remote_access.get");
    reveal_strlit("set");
    reveal_strlit("node.remote_access.set");
    reveal_strlit("restart");
    reveal_strlit("node.remote_access.restart");
}

/// The names that power requests are authorized under.
pub proof fn power_operations_are_named(req: NodePowerRequest, id: ServiceId, name: String)
    requires
        call_ensures(<NodePowerRequest as NodeRequest>::service_id, (&req,), id),
        call_ensures(ServiceId::name, (&id,), name),
    ensures
        id == req.operation(),
        id.family@ == "node.power"@,
        req is Reboot ==> id.method@ == "reboot"@,
        req is Reboot ==> name@ == "node.power.reboot"@,
        req is Shutdown ==> id.method@ == "shutdown"@,
        req is Shutdown ==> name@ == "node.power.shutdown"@,
        req is GracefulReboot ==> id.method@ == "graceful_reboot"@,
        req is GracefulReboot ==> name@ == "node.power.graceful_reboot"@,
        req is GracefulShutdown ==> id.method@ == "graceful_shutdown"@,
        req is GracefulShutdown ==> name@ == "node.power.graceful_shutdown"@,
{
    reveal_strlit(".");
    reveal_strlit("node.power");
    reveal_strlit("reboot");
    reveal_strlit("node.power.reboot");
    reveal_strlit("shutdown");
    reveal_strlit("node.power.shutdown");
    reveal_strlit("graceful_reboot");
    reveal_strlit("node.power.graceful_reboot");
    reveal_strlit("graceful_shutdown");
    reveal_strlit("node.power.graceful_shutdown");
}

/// The names that observation requests are authorized under.
pub proof fn observation_operations_are_named(
    req: NodeObservationRequest,
    id: ServiceId,
    name: String,
)
    requires
        call_ensures(<NodeObservationRequest as NodeRequest>::service_id, (&req,), id),
        call_ensures(ServiceId::name, (&id,), name),
    ensures
        id == req.operation(),
        id.family@ == "node.observation"@,
        req is ProcessList ==> id.method@ == "process_list"@,
        req is ProcessList ==> name@ == "node.observation.process_list"@,
        req is ResourceUsage ==> id.method@ == "resource_usage"@,
        req is ResourceUsage ==> name@ == "node.observation.resource_usage"@,
        req is Uptime ==> id.method@ == "uptime"@,
        req is Uptime ==> name@ == "node.observation.uptime"@,
{
    reveal_strlit(".");
    reveal_strlit("node.observation");
    reveal_strlit("process_list");
    reveal_strlit("node.observation.process_list");
    reveal_strlit("resource_usage");
    reveal_strlit("node.observation.resource_usage");
    reveal_strlit("uptime");
    reveal_strlit("node.observation.uptime");
}

/// The names that version requests are authorized under.
pub proof fn version_operations_are_named(req: NodeVersionRequest, id: ServiceId, name: String)
    requires
        call_ensures(<NodeVersionRequest as NodeRequest>::service_id, (&req,), id),
        call_ensures(ServiceId::name, (&id,), name),
    ensures
        id == req.operation(),
        id.family@ == "node.version"@,
        req is Get ==> id.method@ == "get"@,
        req is Get ==> name@ == "node.version.get"@,
        req is SetOsVersion ==> id.method@ == "set_os_version"@,
        req is SetOsVersion ==> name@ == "node.version.set_os_version"@,
        req is SetProductVersion ==> id.method@ == "set_product_version"@,
        req is SetProductVersion ==> name@ == "node.version.set_product_version"@,
{
    reveal_strlit(".");
    reveal_strlit("node.version");
    reveal_strlit("get");
    reveal_strlit("node.version.get");
    reveal_strlit("set_os_version");
    reveal_strlit("node.version.set_os_version");
    reveal_strlit("set_product_version");
    reveal_strlit("node.version.set_product_version");
}

/// The names that package requests are authorized under.
pub proof fn package_operations_are_named(req: NodePackageRequest, id: ServiceId, name: String)
    requires
        call_ensures(<NodePackageRequest as NodeRequest>::service_id, (&req,), id),
        call_ensures(ServiceId::name, (&id,), name),
    ensures
        id == req.operation(),
        id.family@ == "node.package"@,
        req is Install ==> id.method@ == "install"@,
        req is Install ==> name@ == "node.package.install"@,
        req is Remove ==> id.method@ == "remove"@,
        req is Remove ==> name@ == "node.package.remove"@,
        req is ListInstalled ==> id.method@ == "list"@,
        req is ListInstalled ==> name@ == "node.package.list"@,
        req is Status ==> id.method@ == "status"@,
        req is Status ==> name@ == "node.package.status"@,
{
    reveal_strlit(".");
    reveal_strlit("node.package");
    reveal_strlit("install");
    reveal_strlit("node.package.install");
    reveal_strlit("remove");
    reveal_strlit("node.package.remove");
    reveal_strlit("list");
    reveal_strlit("node.package.list");
    reveal_strlit("status");
    reveal_strlit("node.package.status");
}

/// The names that enrollment requests are authorized under.
pub proof fn enroll_operations_are_named(req: NodeEnrollRequest, id: ServiceId, name: String)
    requires
        call_ensures(<NodeEnrollRequest as NodeRequest>::service_id, (&req,), id),
        call_ensures(ServiceId::name, (&id,), name),
    ensures
        id == req.operation(),
        id.family@ == "node.enroll"@,
        req is Register ==> id.method@ == "register"@,
        req is Register ==> name@ == "node.enroll.register"@,
        req is Deregister ==> id.method@ == "deregister"@,
        req is Deregister ==> name@ == "node.enroll.deregister"@,
{
    reveal_strlit(".");
    reveal_strlit("node.enroll");
    reveal_strlit("register");
    reveal_strlit("node.enroll.register");
    reveal_strlit("deregister");
    reveal_strlit("node.enroll.deregister");
}

/// The number that each lifecycle state travels as. A number that is not
/// known is read as a state that is not known, never as another one.
pub proof fn lifecycle_states_travel_as_their_numbers(
    state: Lifecycle,
    number: u8,
    n: u8,
    read: Lifecycle,
)
    requires
        call_ensures(Lifecycle::number, (state,), number),
        call_ensures(Lifecycle::from_number, (n,), read),
    ensures
        state is NotInstalled <==> number == 0,
        state is Installing <==> number == 1,
        state is Running <==> number == 2,
        state is Stopped <==> number == 3,
        state is Failed <==> number == 4,
        state is Removing <==> number == 5,
        state is Unknown <==> number == 255,
        read is NotInstalled <==> n == 0,
        read is Installing <==> n == 1,
        read is Running <==> n == 2,
        read is Stopped <==> n == 3,
        read is Failed <==> n == 4,
        read is Removing <==> n == 5,
        read is Unknown <==> n > 5,
        n == number ==> read == state,
{
    assert(lifecycle_number(Lifecycle::NotInstalled) == 0);
    assert(lifecycle_number(Lifecycle::Installing) == 1);
    assert(lifecycle_number(Lifecycle::Running) == 2);
    assert(lifecycle_number(Lifecycle::Stopped) == 3);
    assert(lifecycle_number(Lifecycle::Failed) == 4);
    assert(lifecycle_number(Lifecycle::Removing) == 5);
}

/// The tags of the package and the enrollment families are the names of those
/// families, so that what an agent advertises is what its requests are
/// authorized under.
pub proof fn family_tags_name_their_families(
    package: NodePackageRequest,
    package_id: ServiceId,
    enroll: NodeEnrollRequest,
    enroll_id: ServiceId,
)
    requires
        call_ensures(<NodePackageRequest as NodeRequest>::service_id, (&package,), package_id),
        call_ensures(<NodeEnrollRequest as NodeRequest>::service_id, (&enroll,), enroll_id),
    ensures
        capability::NODE_PACKAGE@ == package_id.family@,
        capability::NODE_ENROLL@ == enroll_id.family@,
{
}

/// The tags for what an agent runs and where: the registrar, the supervision
/// of rollbacks, and the two hosts that an agent can share, which are marked
/// as such.
pub proof fn tags_say_what_and_where()
    ensures
        capability::REGISTRAR@ == "registrar"@,
        capability::ROLLBACK_SUPERVISOR@ == "rollback-supervisor"@,
        capability::COLOCATED_REVIEW@ == "colocated:"@ + "review"@,
        capability::COLOCATED_AICE_WEB_NEXT@ == "colocated:"@ + "aice-web-next"@,
{
    reveal_strlit("colocated:");
    reveal_strlit("review");
    reveal_strlit("aice-web-next");
    reveal_strlit("colocated:review");
    reveal_strlit("colocated:aice-web-next");
    assert(capability::COLOCATED_REVIEW@ =~= "colocated:"@ + "review"@);
    assert(capability::COLOCATED_AICE_WEB_NEXT@ =~= "colocated:"@ + "aice-web-next"@);
}

} // verus!
