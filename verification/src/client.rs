//! The numeric request codes that an agent serves.

use vstd::prelude::*;
use vstd::std_specs::convert::FromSpecImpl;

verus! {

/// The kinds of requests that a manager sends to an agent.
#[derive(Clone, Copy, Debug, Eq, PartialEq, Structural)]
pub enum RequestCode {
    /// Update the list of trusted domains.
    TrustedDomainList,
    /// Start DNS filtering.
    DnsStart,
    /// Stop DNS filtering.
    DnsStop,
    /// Reboot the host.
    Reboot,
    /// Reload the configuration.
    ReloadConfig,
    /// Fetch the threat-intelligence database and reload it.
    ReloadTi,
    /// Collect the resource usage.
    ResourceUsage,
    /// Update the list of Tor exit nodes.
    TorExitNodeList,
    /// Update the list of sampling policies.
    SamplingPolicyList,
    /// Update the traffic filter rules.
    ReloadFilterRule,
    /// Update the configuration.
    UpdateConfig,
    /// Delete sampling policies.
    DeleteSamplingPolicy,
    /// Update the list of internal networks.
    InternalNetworkList,
    /// Update the allowlist.
    Allowlist,
    /// Update the blocklist.
    Blocklist,
    /// Ask for an echo.
    EchoRequest,
    /// Update the list of trusted user agents.
    TrustedUserAgentList,
    /// Collect the process list.
    ProcessList,
    /// Update the semi-supervised models.
    SemiSupervisedModels,
    /// Shut the host down.
    Shutdown,
    /// Delete the data of a customer.
    DeleteCustomerData,
    /// Control a service of the node.
    NodeService,
    /// Manage a network interface of the node.
    NodeNetworkInterface,
    /// Manage the hostname of the node.
    NodeHostname,
    /// Manage the time synchronization of the node.
    NodeTimeSync,
    /// Manage the logging of the node.
    NodeLogging,
    /// Manage the remote access of the node.
    NodeRemoteAccess,
    /// Control the power of the node.
    NodePower,
    /// Observe the node.
    NodeObservation,
    /// Manage the versions of the node.
    NodeVersion,
    /// Manage the packages of the node.
    NodePackage,
    /// A code that is not assigned.
    Unknown,
}

/// The number that `code` travels as.
pub open spec fn code_number(code: RequestCode) -> u32 {
    match code {
        RequestCode::TrustedDomainList => 0,
        RequestCode::DnsStart => 1,
        RequestCode::DnsStop => 2,
        RequestCode::Reboot => 4,
        RequestCode::ReloadConfig => 5,
        RequestCode::ReloadTi => 6,
        RequestCode::ResourceUsage => 7,
        RequestCode::TorExitNodeList => 8,
        RequestCode::SamplingPolicyList => 9,
        RequestCode::ReloadFilterRule => 10,
        RequestCode::UpdateConfig => 12,
        RequestCode::DeleteSamplingPolicy => 13,
        RequestCode::InternalNetworkList => 14,
        RequestCode::Allowlist => 15,
        RequestCode::Blocklist => 16,
        RequestCode::EchoRequest => 17,
        RequestCode::TrustedUserAgentList => 18,
        RequestCode::ProcessList => 19,
        RequestCode::SemiSupervisedModels => 20,
        RequestCode::Shutdown => 21,
        RequestCode::DeleteCustomerData => 22,
        RequestCode::NodeService => 100,
        RequestCode::NodeNetworkInterface => 101,
        RequestCode::NodeHostname => 102,
        RequestCode::NodeTimeSync => 103,
        RequestCode::NodeLogging => 104,
        RequestCode::NodeRemoteAccess => 105,
        RequestCode::NodePower => 106,
        RequestCode::NodeObservation => 107,
        RequestCode::NodeVersion => 108,
        RequestCode::NodePackage => 109,
        RequestCode::Unknown => u32::MAX,
    }
}

/// Whether some request code other than `Unknown` travels as `number`.
pub open spec fn is_assigned(number: u32) -> bool {
    exists|code: RequestCode| code != RequestCode::Unknown && #[trigger] code_number(code) == number
}

/// The code that travels as `number`, or `Unknown` where none does.
pub open spec fn code_of(number: u32) -> RequestCode {
    if is_assigned(number) {
        choose|code: RequestCode|
            code != RequestCode::Unknown && #[trigger] code_number(code) == number
    } else {
        RequestCode::Unknown
    }
}

/// Whether `code` belongs to the node service family.
pub open spec fn is_node_code(code: RequestCode) -> bool {
    100 <= code_number(code) <= 109
}

impl RequestCode {
    /// Returns the code that travels as `number`. A number that is not
    /// assigned gives `Unknown`.
    pub fn from_primitive(number: u32) -> (code: RequestCode)
        ensures
            code == code_of(number),
            code != RequestCode::Unknown ==> code_number(code) == number,
            code == RequestCode::Unknown <==> !is_assigned(number),
    {
        let code = match number {
            0 => RequestCode::TrustedDomainList,
            1 => RequestCode::DnsStart,
            2 => RequestCode::DnsStop,
            4 => RequestCode::Reboot,
            5 => RequestCode::ReloadConfig,
            6 => RequestCode::ReloadTi,
            7 => RequestCode::ResourceUsage,
            8 => RequestCode::TorExitNodeList,
            9 => RequestCode::SamplingPolicyList,
            10 => RequestCode::ReloadFilterRule,
            12 => RequestCode::UpdateConfig,
            13 => RequestCode::DeleteSamplingPolicy,
            14 => RequestCode::InternalNetworkList,
            15 => RequestCode::Allowlist,
            16 => RequestCode::Blocklist,
            17 => RequestCode::EchoRequest,
            18 => RequestCode::TrustedUserAgentList,
            19 => RequestCode::ProcessList,
            20 => RequestCode::SemiSupervisedModels,
            21 => RequestCode::Shutdown,
            22 => RequestCode::DeleteCustomerData,
            100 => RequestCode::NodeService,
            101 => RequestCode::NodeNetworkInterface,
            102 => RequestCode::NodeHostname,
            103 => RequestCode::NodeTimeSync,
            104 => RequestCode::NodeLogging,
            105 => RequestCode::NodeRemoteAccess,
            106 => RequestCode::NodePower,
            107 => RequestCode::NodeObservation,
            108 => RequestCode::NodeVersion,
            109 => RequestCode::NodePackage,
            _ => RequestCode::Unknown,
        };
        assert(code != RequestCode::Unknown ==> code_number(code) == number);
        code
    }
}

impl From<RequestCode> for u32 {
    fn from(code: RequestCode) -> (number: u32) {
        match code {
            RequestCode::TrustedDomainList => 0,
            RequestCode::DnsStart => 1,
            RequestCode::DnsStop => 2,
            RequestCode::Reboot => 4,
            RequestCode::ReloadConfig => 5,
            RequestCode::ReloadTi => 6,
            RequestCode::ResourceUsage => 7,
            RequestCode::TorExitNodeList => 8,
            RequestCode::SamplingPolicyList => 9,
            RequestCode::ReloadFilterRule => 10,
            RequestCode::UpdateConfig => 12,
            RequestCode::DeleteSamplingPolicy => 13,
            RequestCode::InternalNetworkList => 14,
            RequestCode::Allowlist => 15,
            RequestCode::Blocklist => 16,
            RequestCode::EchoRequest => 17,
            RequestCode::TrustedUserAgentList => 18,
            RequestCode::ProcessList => 19,
            RequestCode::SemiSupervisedModels => 20,
            RequestCode::Shutdown => 21,
            RequestCode::DeleteCustomerData => 22,
            RequestCode::NodeService => 100,
            RequestCode::NodeNetworkInterface => 101,
            RequestCode::NodeHostname => 102,
            RequestCode::NodeTimeSync => 103,
            RequestCode::NodeLogging => 104,
            RequestCode::NodeRemoteAccess => 105,
            RequestCode::NodePower => 106,
            RequestCode::NodeObservation => 107,
            RequestCode::NodeVersion => 108,
            RequestCode::NodePackage => 109,
            RequestCode::Unknown => u32::MAX,
        }
    }
}

impl FromSpecImpl<RequestCode> for u32 {
    open spec fn obeys_from_spec() -> bool {
        true
    }

    open spec fn from_spec(code: RequestCode) -> u32 {
        code_number(code)
    }
}

/// Two codes never travel as the same number, so that a number names at most
/// one code.
pub proof fn codes_do_not_collide(a: RequestCode, b: RequestCode)
    requires
        code_number(a) == code_number(b),
    ensures
        a == b,
{
}

/// A code is read back from the number that it travels as.
pub proof fn code_reads_back(code: RequestCode)
    ensures
        code_of(code_number(code)) == code,
{
    if code != RequestCode::Unknown {
        assert(is_assigned(code_number(code)));
    }
}

/// The flat codes lie in `0..=22`, the node codes fill `100..=109`, and no
/// other number is assigned.
pub proof fn assigned_numbers(number: u32)
    ensures
        is_assigned(number) ==> number <= 22 || 100 <= number <= 109,
        100 <= number <= 109 ==> is_assigned(number),
{
    if number == 100 {
        assert(code_number(RequestCode::NodeService) == number);
    } else if number == 101 {
        assert(code_number(RequestCode::NodeNetworkInterface) == number);
    } else if number == 102 {
        assert(code_number(RequestCode::NodeHostname) == number);
    } else if number == 103 {
        assert(code_number(RequestCode::NodeTimeSync) == number);
    } else if number == 104 {
        assert(code_number(RequestCode::NodeLogging) == number);
    } else if number == 105 {
        assert(code_number(RequestCode::NodeRemoteAccess) == number);
    } else if number == 106 {
        assert(code_number(RequestCode::NodePower) == number);
    } else if number == 107 {
        assert(code_number(RequestCode::NodeObservation) == number);
    } else if number == 108 {
        assert(code_number(RequestCode::NodeVersion) == number);
    } else if number == 109 {
        assert(code_number(RequestCode::NodePackage) == number);
    }
}

/// What each number stands for on the wire. Every number that is not named
/// here stands for nothing: 3 and 11, those from 23 to 99, and those beyond
/// 109.
pub proof fn numbers_stand_for_their_codes(number: u32, code: RequestCode)
    requires
        call_ensures(RequestCode::from_primitive, (number,), code),
    ensures
        number == 0 ==> code is TrustedDomainList,
        number == 1 ==> code is DnsStart,
        number == 2 ==> code is DnsStop,
        number == 4 ==> code is Reboot,
        number == 5 ==> code is ReloadConfig,
        number == 6 ==> code is ReloadTi,
        number == 7 ==> code is ResourceUsage,
        number == 8 ==> code is TorExitNodeList,
        number == 9 ==> code is SamplingPolicyList,
        number == 10 ==> code is ReloadFilterRule,
        number == 12 ==> code is UpdateConfig,
        number == 13 ==> code is DeleteSamplingPolicy,
        number == 14 ==> code is InternalNetworkList,
        number == 15 ==> code is Allowlist,
        number == 16 ==> code is Blocklist,
        number == 17 ==> code is EchoRequest,
        number == 18 ==> code is TrustedUserAgentList,
        number == 19 ==> code is ProcessList,
        number == 20 ==> code is SemiSupervisedModels,
        number == 21 ==> code is Shutdown,
        number == 22 ==> code is DeleteCustomerData,
        number == 100 ==> code is NodeService,
        number == 101 ==> code is NodeNetworkInterface,
        number == 102 ==> code is NodeHostname,
        number == 103 ==> code is NodeTimeSync,
        number == 104 ==> code is NodeLogging,
        number == 105 ==> code is NodeRemoteAccess,
        number == 106 ==> code is NodePower,
        number == 107 ==> code is NodeObservation,
        number == 108 ==> code is NodeVersion,
        number == 109 ==> code is NodePackage,
        number == 3 || number == 11 || 23 <= number <= 99 || number >= 110 ==> code is Unknown,
{
    code_reads_back(RequestCode::TrustedDomainList);
    code_reads_back(RequestCode::DnsStart);
    code_reads_back(RequestCode::DnsStop);
    code_reads_back(RequestCode::Reboot);
    code_reads_back(RequestCode::ReloadConfig);
    code_reads_back(RequestCode::ReloadTi);
    code_reads_back(RequestCode::ResourceUsage);
    code_reads_back(RequestCode::TorExitNodeList);
    code_reads_back(RequestCode::SamplingPolicyList);
    code_reads_back(RequestCode::ReloadFilterRule);
    code_reads_back(RequestCode::UpdateConfig);
    code_reads_back(RequestCode::DeleteSamplingPolicy);
    code_reads_back(RequestCode::InternalNetworkList);
    code_reads_back(RequestCode::Allowlist);
    code_reads_back(RequestCode::Blocklist);
    code_reads_back(RequestCode::EchoRequest);
    code_reads_back(RequestCode::TrustedUserAgentList);
    code_reads_back(RequestCode::ProcessList);
    code_reads_back(RequestCode::SemiSupervisedModels);
    code_reads_back(RequestCode::Shutdown);
    code_reads_back(RequestCode::DeleteCustomerData);
    code_reads_back(RequestCode::NodeService);
    code_reads_back(RequestCode::NodeNetworkInterface);
    code_reads_back(RequestCode::NodeHostname);
    code_reads_back(RequestCode::NodeTimeSync);
    code_reads_back(RequestCode::NodeLogging);
    code_reads_back(RequestCode::NodeRemoteAccess);
    code_reads_back(RequestCode::NodePower);
    code_reads_back(RequestCode::NodeObservation);
    code_reads_back(RequestCode::NodeVersion);
    code_reads_back(RequestCode::NodePackage);
    assigned_numbers(number);
}

/// The two directions agree: a code is read back from the number that it is
/// written as, and a number that stands for a code is what the code is
/// written as. The code for what is not assigned is written as a number that
/// stands for nothing.
pub proof fn codes_and_numbers_agree(
    code: RequestCode,
    written: u32,
    read: RequestCode,
    number: u32,
    stands_for: RequestCode,
    rewritten: u32,
)
    requires
        call_ensures(<u32 as From<RequestCode>>::from, (code,), written),
        call_ensures(RequestCode::from_primitive, (written,), read),
        call_ensures(RequestCode::from_primitive, (number,), stands_for),
        call_ensures(<u32 as From<RequestCode>>::from, (stands_for,), rewritten),
    ensures
        read == code,
        rewritten == number || stands_for is Unknown,
        code is Unknown ==> written == 0xffff_ffff,
{
    code_reads_back(code);
}

} // verus!
