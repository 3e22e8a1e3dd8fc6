//! What a handler does with node requests that it does not serve itself.
//!
//! The overlapping host-control operations fall back to the flat methods of
//! the handler, so that an agent which implements those also answers the
//! corresponding node requests. Everything else is not supported.

use vstd::prelude::*;

use crate::types::node::{
    NodeObservationRequest, NodeObservationResponse, NodePowerRequest, NodePowerResponse,
};

verus! {

use super::dispatch::{is_processes_reply, is_usage_reply};

/// The flat method that a power request falls back to.
#[derive(Clone, Copy, Debug, Eq, PartialEq, Structural)]
pub enum PowerFallback {
    Reboot,
    Shutdown,
    NotSupported,
}

/// The flat method that an observation falls back to.
#[derive(Clone, Copy, Debug, Eq, PartialEq, Structural)]
pub enum ObservationFallback {
    ProcessList,
    ResourceUsage,
    NotSupported,
}

/// The answer to a request that is not supported.
pub fn not_supported<T>() -> (r: Result<T, String>)
    ensures
        r matches Err(text) && text@ == "not supported"@,
{
    Err("not supported".to_owned())
}

/// Returns the flat method that a power request falls back to. Graceful
/// operations have none.
pub fn node_power(req: NodePowerRequest) -> (fallback: PowerFallback)
    ensures
        fallback == match req {
            NodePowerRequest::Reboot => PowerFallback::Reboot,
            NodePowerRequest::Shutdown => PowerFallback::Shutdown,
            NodePowerRequest::GracefulReboot => PowerFallback::NotSupported,
            NodePowerRequest::GracefulShutdown => PowerFallback::NotSupported,
        },
{
    match req {
        NodePowerRequest::Reboot => PowerFallback::Reboot,
        NodePowerRequest::Shutdown => PowerFallback::Shutdown,
        NodePowerRequest::GracefulReboot | NodePowerRequest::GracefulShutdown => {
            PowerFallback::NotSupported
        },
    }
}

/// Returns the flat method that an observation falls back to. The uptime has
/// none.
pub fn node_observation(req: NodeObservationRequest) -> (fallback: ObservationFallback)
    ensures
        fallback == match req {
            NodeObservationRequest::ProcessList => ObservationFallback::ProcessList,
            NodeObservationRequest::ResourceUsage => ObservationFallback::ResourceUsage,
            NodeObservationRequest::Uptime => ObservationFallback::NotSupported,
        },
{
    match req {
        NodeObservationRequest::ProcessList => ObservationFallback::ProcessList,
        NodeObservationRequest::ResourceUsage => ObservationFallback::ResourceUsage,
        NodeObservationRequest::Uptime => ObservationFallback::NotSupported,
    }
}

/// The power answer that the answer of a flat method stands for.
pub open spec fn power_answer(flat: Result<(), String>) -> Result<NodePowerResponse, String> {
    match flat {
        Ok(()) => Ok(NodePowerResponse::Initiated),
        Err(text) => Err(text),
    }
}

/// The observation that the answer of the flat process list stands for.
pub open spec fn processes_answer<P, U>(flat: Result<Vec<P>, String>) -> Result<
    NodeObservationResponse<P, U>,
    String,
> {
    match flat {
        Ok(processes) => Ok(NodeObservationResponse::ProcessList { processes }),
        Err(text) => Err(text),
    }
}

/// The observation that the answer of the flat resource usage stands for.
pub open spec fn usage_answer<P, U>(flat: Result<(String, U), String>) -> Result<
    NodeObservationResponse<P, U>,
    String,
> {
    match flat {
        Ok((hostname, resource_usage)) => Ok(
            NodeObservationResponse::ResourceUsage { hostname, resource_usage },
        ),
        Err(text) => Err(text),
    }
}

/// Turns the answer of a flat method into a power answer.
pub fn power_from_flat(flat: Result<(), String>) -> (r: Result<NodePowerResponse, String>)
    ensures
        r == power_answer(flat),
{
    match flat {
        Ok(()) => Ok(NodePowerResponse::Initiated),
        Err(text) => Err(text),
    }
}

/// Turns the answer of the flat process list into an observation.
pub fn processes_from_flat<P, U>(flat: Result<Vec<P>, String>) -> (r: Result<
    NodeObservationResponse<P, U>,
    String,
>)
    ensures
        r == processes_answer::<P, U>(flat),
{
    match flat {
        Ok(processes) => Ok(NodeObservationResponse::ProcessList { processes }),
        Err(text) => Err(text),
    }
}

/// Turns the answer of the flat resource usage into an observation.
pub fn usage_from_flat<P, U>(flat: Result<(String, U), String>) -> (r: Result<
    NodeObservationResponse<P, U>,
    String,
>)
    ensures
        r == usage_answer::<P, U>(flat),
{
    match flat {
        Ok((hostname, resource_usage)) => Ok(
            NodeObservationResponse::ResourceUsage { hostname, resource_usage },
        ),
        Err(text) => Err(text),
    }
}

/// A flat request that is routed through the observation and falls back to
/// its flat method is answered with exactly what the flat method answered.
pub proof fn flat_requests_keep_their_answers<P, U>(
    usage: Result<(String, U), String>,
    usage_reply: Result<(String, U), String>,
    processes: Result<Vec<P>, String>,
    processes_reply: Result<Vec<P>, String>,
    rendering: Seq<char>,
)
    requires
        is_usage_reply(usage_answer::<P, U>(usage), rendering, usage_reply),
        is_processes_reply(processes_answer::<P, U>(processes), rendering, processes_reply),
    ensures
        usage_reply == usage,
        processes_reply == processes,
{
}

/// An immediate power operation falls back to the flat method of the same
/// name, and a graceful one to none. What the flat method answered is kept:
/// success stands for an operation under way, and the text of a failure stays
/// as it is.
pub proof fn power_falls_back_to_its_flat_method(
    req: NodePowerRequest,
    fallback: PowerFallback,
    flat: Result<(), String>,
    r: Result<NodePowerResponse, String>,
)
    requires
        call_ensures(node_power, (req,), fallback),
        call_ensures(power_from_flat, (flat,), r),
    ensures
        req is Reboot <==> fallback is Reboot,
        req is Shutdown <==> fallback is Shutdown,
        flat is Ok <==> r is Ok,
        r matches Ok(response) ==> response is Initiated,
        flat matches Err(text) ==> r == Err::<NodePowerResponse, String>(text),
{
}

/// The process list and the resource usage fall back to the flat methods of
/// the same names, and the uptime to none. The readings and the texts of
/// failures stay as they are.
pub proof fn observation_falls_back_to_its_flat_method<P, U>(
    req: NodeObservationRequest,
    fallback: ObservationFallback,
    processes: Result<Vec<P>, String>,
    from_processes: Result<NodeObservationResponse<P, U>, String>,
    usage: Result<(String, U), String>,
    from_usage: Result<NodeObservationResponse<P, U>, String>,
)
    requires
        call_ensures(node_observation, (req,), fallback),
        call_ensures(processes_from_flat::<P, U>, (processes,), from_processes),
        call_ensures(usage_from_flat::<P, U>, (usage,), from_usage),
    ensures
        req is ProcessList <==> fallback is ProcessList,
        req is ResourceUsage <==> fallback is ResourceUsage,
        processes is Ok <==> from_processes is Ok,
        from_processes matches Ok(observed) ==> observed == (
        NodeObservationResponse::<P, U>::ProcessList { processes: processes->Ok_0 }),
        processes matches Err(text) ==> from_processes == Err::<
            NodeObservationResponse<P, U>,
            String,
        >(text),
        usage is Ok <==> from_usage is Ok,
        from_usage matches Ok(observed) ==> observed == (
        NodeObservationResponse::<P, U>::ResourceUsage {
            hostname: usage->Ok_0.0,
            resource_usage: usage->Ok_0.1,
        }),
        usage matches Err(text) ==> from_usage == Err::<NodeObservationResponse<P, U>, String>(
            text,
        ),
{
}

/// What is not supported fails, and says so.
pub proof fn what_is_not_supported_says_so<T>(r: Result<T, String>)
    requires
        call_ensures(not_supported::<T>, (), r),
    ensures
        r is Err,
        r->Err_0@ == "not supported"@,
{
}

} // verus!
