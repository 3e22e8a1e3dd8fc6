//! What every run of the dispatch keeps.

use vstd::prelude::*;

use super::dispatch::{
    dispatch_node_package, fits, handle, handle_node, install_reply, processes_reply, start,
    usage_reply, Action, Answer, Args, Call, Event, Method, Pending, Reply, Scope, State,
};
use super::{node_power_expects_response, HandlerError};
use crate::client::RequestCode;
use crate::protocol_error::{IoError, IoErrorKind, ProtocolErrorKind};
use crate::types::node::{
    InstallPreflight, NodeObservationRequest, NodeObservationResponse, NodePackageRequest,
    NodePackageResponse, NodePowerRequest, NodePowerResponse,
};

verus! {

use super::dispatch::{
    accepts, after_read, classifies_parse_failure, declared_size, refusal_text, transition,
};
use super::expects_response;
use super::package::{fresh_transfer, is_complete, Transfer};
use crate::client::{assigned_numbers, code_number, code_of, code_reads_back, is_assigned};
use crate::client::is_node_code;
use crate::protocol_error::category;
use crate::text::decimal;

/// One step of a dispatch.
pub struct Step<A, R, P, U> {
    pub pre: State,
    pub event: Event<A, R, P, U>,
    pub post: State,
    pub action: Action<A, R, P, U>,
}

/// Whether `s` is a step of a dispatch with the given scope.
pub open spec fn is_step<A, R, P, U>(scope: Scope, s: Step<A, R, P, U>) -> bool {
    accepts(s.pre, s.event) && transition(scope, s.pre, s.event, s.post, s.action)
}

/// Whether `steps` follow each other.
pub open spec fn is_run<A, R, P, U>(scope: Scope, steps: Seq<Step<A, R, P, U>>) -> bool {
    &&& forall|i: int| 0 <= i < steps.len() ==> is_step(scope, #[trigger] steps[i])
    &&& forall|i: int|
        0 < i < steps.len() ==> (#[trigger] steps[i]).pre == steps[i - 1].post
}

/// Whether `steps` serve one request: the first one takes the request in,
/// the last one is ready for the next, and none in between is.
pub open spec fn serves_one_request<A, R, P, U>(
    scope: Scope,
    steps: Seq<Step<A, R, P, U>>,
) -> bool {
    &&& is_run(scope, steps)
    &&& steps.len() > 0
    &&& steps[0].pre == State::Receiving
    &&& steps.last().post == State::Receiving
    &&& forall|i: int| 0 <= i < steps.len() - 1 ==> (#[trigger] steps[i]).post != State::Receiving
}

/// The number of response frames that `steps` send.
pub open spec fn frames<A, R, P, U>(steps: Seq<Step<A, R, P, U>>) -> nat
    decreases steps.len(),
{
    if steps.len() == 0 {
        0
    } else {
        frames(steps.drop_last()) + if steps.last().action is Send {
            1nat
        } else {
            0
        }
    }
}

/// Whether the step starts an install, which is what asks for a payload.
pub open spec fn starts_install<A, R, P, U>(s: Step<A, R, P, U>) -> bool {
    s.action matches Action::Call(call) && call is Install
}

/// The number of installs that `steps` start.
pub open spec fn installs<A, R, P, U>(steps: Seq<Step<A, R, P, U>>) -> nat
    decreases steps.len(),
{
    if steps.len() == 0 {
        0
    } else {
        installs(steps.drop_last()) + if starts_install(steps.last()) {
            1nat
        } else {
            0
        }
    }
}

/// The number of handler calls that `steps` make.
pub open spec fn calls<A, R, P, U>(steps: Seq<Step<A, R, P, U>>) -> nat
    decreases steps.len(),
{
    if steps.len() == 0 {
        0
    } else {
        calls(steps.drop_last()) + if steps.last().action is Call {
            1nat
        } else {
            0
        }
    }
}

/// Whether the step takes in the arguments of an immediate power operation.
pub open spec fn is_immediate_power<A, R, P, U>(s: Step<A, R, P, U>) -> bool {
    s.event matches Event::Parsed(Ok(Args::Power(req))) && !expects_response(req)
}

/// Whether one of `steps` takes in an immediate power operation.
pub open spec fn has_immediate_power<A, R, P, U>(steps: Seq<Step<A, R, P, U>>) -> bool
    decreases steps.len(),
{
    steps.len() > 0 && (has_immediate_power(steps.drop_last()) || is_immediate_power(steps.last()))
}

/// What has happened by the time a state is reached.
spec fn progress<A, R, P, U>(steps: Seq<Step<A, R, P, U>>, state: State) -> bool {
    let sent = frames(steps);
    let started = installs(steps);
    let immediate = has_immediate_power(steps);
    let first = if steps[0].action is Send {
        0
    } else {
        1nat
    };
    &&& match state {
        State::Parsing(_) => calls(steps) == 0 && first == 1,
        State::Stopped => true,
        _ => calls(steps) == first + started,
    }
    &&& match state {
        State::Receiving => started <= 1 && sent == if immediate {
            0
        } else {
            1 + started
        } && (immediate ==> started == 0),
        State::Parsing(_) => sent == 0 && started == 0 && !immediate,
        State::Calling(pending) => sent == 0 && started == 0 && (immediate <==> pending == (
        Pending::Power { answered: false })),
        State::Preflighting(_) => sent == 0 && started == 0 && !immediate,
        State::Judged(_) => sent == 1 && started == 0 && !immediate,
        State::Installing(_) => sent == 1 && started == 1 && !immediate,
        State::Draining { .. } => sent == 1 && started == 1 && !immediate,
        State::Responding => sent == 1 + started && started <= 1 && !immediate,
        State::Stopped => true,
    }
}

proof fn lemma_progress<A, R, P, U>(scope: Scope, steps: Seq<Step<A, R, P, U>>, n: int)
    requires
        is_run(scope, steps),
        steps.len() > 0,
        steps[0].pre == State::Receiving,
        forall|i: int|
            0 <= i < steps.len() - 1 ==> (#[trigger] steps[i]).post != State::Receiving,
        1 <= n <= steps.len(),
    ensures
        progress(steps.take(n), steps[n - 1].post),
    decreases n,
{
    let s = steps[n - 1];
    assert(is_step(scope, s));
    assert(steps.take(n).drop_last() =~= steps.take(n - 1));
    assert(steps.take(n).last() == s);
    assert(steps.take(n)[0] == steps[0]);
    if n > 1 {
        assert(steps.take(n - 1)[0] == steps[0]);
        lemma_progress(scope, steps, n - 1);
        assert(steps[n - 1].pre == steps[n - 2].post);
        assert(steps[n - 2].post != State::Receiving);
    } else {
        assert(steps.take(0) =~= Seq::<Step<A, R, P, U>>::empty());
        assert(frames(steps.take(0)) == 0);
        assert(installs(steps.take(0)) == 0);
        assert(calls(steps.take(0)) == 0);
        assert(!has_immediate_power(steps.take(0)));
    }
}

/// A request is answered with exactly one frame. There are two exceptions:
/// an immediate power operation is not answered at all, and an install that
/// goes ahead is answered with the verdict and one terminal frame.
pub proof fn one_terminal_frame<A, R, P, U>(scope: Scope, steps: Seq<Step<A, R, P, U>>)
    requires
        serves_one_request(scope, steps),
    ensures
        has_immediate_power(steps) ==> frames(steps) == 0 && installs(steps) == 0,
        !has_immediate_power(steps) ==> frames(steps) == 1 + installs(steps),
        installs(steps) <= 1,
{
    lemma_progress(scope, steps, steps.len() as int);
    assert(steps.take(steps.len() as int) =~= steps);
}

/// The handler is called exactly once for a request. There are two
/// exceptions: a request that is answered right away, as a refused one and an
/// echo are, does not reach the handler, and an install that goes ahead
/// reaches it once to be judged and once to be carried out.
pub proof fn handler_is_called_once<A, R, P, U>(scope: Scope, steps: Seq<Step<A, R, P, U>>)
    requires
        serves_one_request(scope, steps),
    ensures
        steps[0].action is Send ==> calls(steps) == 0 && steps.len() == 2,
        !(steps[0].action is Send) ==> calls(steps) == 1 + installs(steps),
{
    lemma_progress(scope, steps, steps.len() as int);
    assert(steps.take(steps.len() as int) =~= steps);
    if steps[0].action is Send {
        lemma_answered_at_once(scope, steps);
        let head = steps.drop_last();
        assert(head.last() == steps[0]);
        assert(head.drop_last() =~= Seq::<Step<A, R, P, U>>::empty());
        assert(installs(head.drop_last()) == 0);
        assert(installs(head) == 0);
        assert(steps.last() == steps[1]);
    }
}

proof fn lemma_answered_at_once<A, R, P, U>(scope: Scope, steps: Seq<Step<A, R, P, U>>)
    requires
        serves_one_request(scope, steps),
        steps[0].action is Send,
    ensures
        steps.len() == 2,
        steps[1].action is Receive,
{
    assert(is_step(scope, steps[0]));
    assert(steps[0].post == State::Responding);
    assert(steps.len() > 1);
    assert(is_step(scope, steps[1]));
    assert(steps[1].pre == steps[0].post);
    if steps.len() > 2 {
        assert(steps[1].post == State::Stopped);
        assert(is_step(scope, steps[2]));
        assert(steps[2].pre == steps[1].post);
    }
}

/// A payload is asked for only right after the verdict to go ahead was sent,
/// for the very request that the handler judged, and with a reader bound to
/// the size that the request declares.
pub proof fn bytes_move_only_after_proceed<A, R, P, U>(
    scope: Scope,
    verdict: Step<A, R, P, U>,
    install: Step<A, R, P, U>,
)
    requires
        is_step(scope, verdict),
        is_step(scope, install),
        install.pre == verdict.post,
        starts_install(install),
    ensures
        verdict.action == Action::<A, R, P, U>::Send(
            Reply::Preflight(Ok(InstallPreflight::Proceed)),
        ),
        verdict.pre matches State::Preflighting(req) && install.action matches Action::Call(
            Call::Install(same, reader),
        ) && same == req && reader@ == fresh_transfer(declared_size(req)),
{
}

/// A verdict other than to go ahead is the terminal frame of an install: once
/// it is sent, the next thing to do is to receive a request.
pub proof fn refusal_at_the_verdict_is_terminal<A, R, P, U>(
    scope: Scope,
    verdict: Step<A, R, P, U>,
    sent: Step<A, R, P, U>,
)
    requires
        is_step(scope, verdict),
        is_step(scope, sent),
        sent.pre == verdict.post,
        verdict.event matches Event::Handled(Answer::Preflight(v)) && v != Ok::<
            InstallPreflight,
            String,
        >(InstallPreflight::Proceed),
        sent.event == Event::<A, R, P, U>::Sent(Ok(())),
    ensures
        sent.post == State::Receiving,
        sent.action == Action::<A, R, P, U>::Receive,
{
}

/// The transfer of the install that this step belongs to, once the step is
/// done.
pub open spec fn transfer_after<A, R, P, U>(s: Step<A, R, P, U>) -> Transfer {
    match (s.pre, s.event) {
        (State::Draining { reader, .. }, Event::Chunk(read)) => after_read(reader@, read),
        (_, Event::Handled(Answer::Installed { reader, .. })) => reader@,
        _ => fresh_transfer(0),
    }
}

/// The payload of an install is read to its end before the install is
/// answered, whatever the handler left of it and whatever it answered, unless
/// a read failed and there is no end to read up to.
pub proof fn payload_is_read_to_its_end<A, R, P, U>(scope: Scope, s: Step<A, R, P, U>)
    requires
        is_step(scope, s),
        s.pre is Installing || s.pre is Draining,
    ensures
        s.action is Send <==> is_complete(transfer_after(s)) || transfer_after(s).failed,
        s.action is Send || s.action is ReadChunk,
{
}

/// An install is answered with success only once its whole payload was read,
/// so that the dispatch resumes on the next request.
pub proof fn success_means_payload_was_read<A, R, P, U>(scope: Scope, s: Step<A, R, P, U>)
    requires
        is_step(scope, s),
        s.action matches Action::Send(Reply::Package(reply)) && reply is Ok,
        s.pre is Installing || s.pre is Draining,
    ensures
        s.event matches Event::Handled(Answer::Installed { reader, .. }) ==> is_complete(reader@),
        s.pre matches State::Draining { reader, .. } ==> is_complete(
            after_read(reader@, s.event->Chunk_0),
        ),
{
}

/// Whether the handler failed the install of this step with `text`.
pub open spec fn handler_failed<A, R, P, U>(s: Step<A, R, P, U>, text: String) -> bool {
    match s.pre {
        State::Draining { result, .. } => result == Err::<NodePackageResponse, String>(text),
        _ => match s.event {
            Event::Handled(Answer::Installed { result, .. }) => result == Err::<
                NodePackageResponse,
                String,
            >(text),
            _ => false,
        },
    }
}

/// A handler that failed keeps its own message, whatever becomes of the rest
/// of the payload.
pub proof fn failed_install_keeps_its_message<A, R, P, U>(
    scope: Scope,
    s: Step<A, R, P, U>,
    text: String,
)
    requires
        is_step(scope, s),
        handler_failed(s, text),
    ensures
        s.action matches Action::Send(reply) ==> reply == Reply::<R, P, U>::Package(Err(text)),
        s.post matches State::Draining { result, .. } ==> result == Err::<
            NodePackageResponse,
            String,
        >(text),
{
}

/// The dispatch ends without an error only where the stream ends between two
/// requests.
pub proof fn ends_cleanly_only_between_requests<A, R, P, U>(scope: Scope, s: Step<A, R, P, U>)
    requires
        is_step(scope, s),
        s.action == Action::<A, R, P, U>::Stop(Ok(())),
    ensures
        s.pre == State::Receiving,
        s.event matches Event::Received(Err(e)) && e.kind == IoErrorKind::UnexpectedEof,
{
}

/// A request number that is not assigned is refused by name and the dispatch
/// goes on: once the refusal is sent, the next request is received. No
/// handler is called for it.
pub proof fn unassigned_number_is_refused<A, R, P, U>(
    scope: Scope,
    number: u32,
    s: Step<A, R, P, U>,
)
    requires
        is_step(scope, s),
        s.event matches Event::Received(Ok((n, _))) && n == number,
        !is_assigned(number),
    ensures
        s.post == State::Responding,
        s.action matches Action::Send(Reply::Refusal(text)) && text@ == refusal_text(number),
{
}

/// The node-only dispatch refuses every code outside the node family in the
/// same way.
pub proof fn node_dispatch_refuses_flat_codes<A, R, P, U>(number: u32, s: Step<A, R, P, U>)
    requires
        is_step(Scope::NodeOnly, s),
        s.event matches Event::Received(Ok((n, _))) && n == number,
        !is_node_code(code_of(number)),
    ensures
        s.post == State::Responding,
        s.action matches Action::Send(Reply::Refusal(text)) && text@ == refusal_text(number),
{
}

/// On node requests the two dispatches do the same.
pub proof fn dispatches_agree_on_node_requests<A, R, P, U>(s: Step<A, R, P, U>)
    requires
        s.event matches Event::Received(Ok((number, _))) ==> is_node_code(code_of(number)),
    ensures
        is_step(Scope::All, s) <==> is_step(Scope::NodeOnly, s),
{
}

/// Arguments that do not parse end the dispatch. Of a power request and of a
/// threat-intelligence reload the error is classified as invalid arguments;
/// of any other request the error is the one that the parse reported.
pub proof fn parse_failure_ends_the_dispatch<A, R, P, U>(
    scope: Scope,
    code: RequestCode,
    e: IoError,
    s: Step<A, R, P, U>,
)
    requires
        is_step(scope, s),
        s.pre == State::Parsing(code),
        s.event == Event::<A, R, P, U>::Parsed(Err(e)),
    ensures
        s.post == State::Stopped,
        s.action matches Action::Stop(Err(HandlerError::RecvError(reported))) && {
            &&& reported.kind == e.kind
            &&& reported.message == e.message
            &&& classifies_parse_failure(code) ==> category(reported)
                == ProtocolErrorKind::InvalidArgs
            &&& !classifies_parse_failure(code) ==> reported == e
        },
{
}

/// Both dispatches take steps: what they answer with, on an event that is the
/// outcome of what was to be done, is a step of their scope.
pub proof fn dispatches_take_steps<A, R, P, U>(s: Step<A, R, P, U>)
    requires
        accepts(s.pre, s.event),
    ensures
        call_ensures(handle::<A, R, P, U>, (s.pre, s.event), (s.post, s.action)) ==> is_step(
            Scope::All,
            s,
        ),
        call_ensures(handle_node::<A, R, P, U>, (s.pre, s.event), (s.post, s.action)) ==> is_step(
            Scope::NodeOnly,
            s,
        ),
{
}

/// A dispatch starts by receiving a request.
pub proof fn dispatch_starts_by_receiving<A, R, P, U>(r: (State, Action<A, R, P, U>))
    requires
        call_ensures(start::<A, R, P, U>, (), r),
    ensures
        r.0 is Receiving,
        r.1 is Receive,
{
}

proof fn lemma_numbers_of_codes()
    ensures
        code_of(0) == RequestCode::TrustedDomainList,
        code_of(1) == RequestCode::DnsStart,
        code_of(2) == RequestCode::DnsStop,
        code_of(4) == RequestCode::Reboot,
        code_of(5) == RequestCode::ReloadConfig,
        code_of(6) == RequestCode::ReloadTi,
        code_of(7) == RequestCode::ResourceUsage,
        code_of(8) == RequestCode::TorExitNodeList,
        code_of(9) == RequestCode::SamplingPolicyList,
        code_of(10) == RequestCode::ReloadFilterRule,
        code_of(12) == RequestCode::UpdateConfig,
        code_of(13) == RequestCode::DeleteSamplingPolicy,
        code_of(14) == RequestCode::InternalNetworkList,
        code_of(15) == RequestCode::Allowlist,
        code_of(16) == RequestCode::Blocklist,
        code_of(17) == RequestCode::EchoRequest,
        code_of(18) == RequestCode::TrustedUserAgentList,
        code_of(19) == RequestCode::ProcessList,
        code_of(20) == RequestCode::SemiSupervisedModels,
        code_of(21) == RequestCode::Shutdown,
        code_of(22) == RequestCode::DeleteCustomerData,
        code_of(100) == RequestCode::NodeService,
        code_of(101) == RequestCode::NodeNetworkInterface,
        code_of(102) == RequestCode::NodeHostname,
        code_of(103) == RequestCode::NodeTimeSync,
        code_of(104) == RequestCode::NodeLogging,
        code_of(105) == RequestCode::NodeRemoteAccess,
        code_of(106) == RequestCode::NodePower,
        code_of(107) == RequestCode::NodeObservation,
        code_of(108) == RequestCode::NodeVersion,
        code_of(109) == RequestCode::NodePackage,
{
    code_reads_back(RequestCode::TrustedDomainList);
    code_reads_back(RequestCode::DnsStart);
    code_reads_back(RequestCode::DnsStop);
    code_reads_back(RequestCode::Reboot);
    code_reads_back(RequestCode::ReloadConfig);
    code_reads_back(RequestCode::ReloadTi);
    code_reads_back(RequestCode::ResourceUsage);
    code_reads_back(RequestCode::TorExitNodeList);
    code_reads_back(RequestCode::SamplingPolicyList);
    code_reads_back(RequestCode::ReloadFilterRule);
    code_reads_back(RequestCode::UpdateConfig);
    code_reads_back(RequestCode::DeleteSamplingPolicy);
    code_reads_back(RequestCode::InternalNetworkList);
    code_reads_back(RequestCode::Allowlist);
    code_reads_back(RequestCode::Blocklist);
    code_reads_back(RequestCode::EchoRequest);
    code_reads_back(RequestCode::TrustedUserAgentList);
    code_reads_back(RequestCode::ProcessList);
    code_reads_back(RequestCode::SemiSupervisedModels);
    code_reads_back(RequestCode::Shutdown);
    code_reads_back(RequestCode::DeleteCustomerData);
    code_reads_back(RequestCode::NodeService);
    code_reads_back(RequestCode::NodeNetworkInterface);
    code_reads_back(RequestCode::NodeHostname);
    code_reads_back(RequestCode::NodeTimeSync);
    code_reads_back(RequestCode::NodeLogging);
    code_reads_back(RequestCode::NodeRemoteAccess);
    code_reads_back(RequestCode::NodePower);
    code_reads_back(RequestCode::NodeObservation);
    code_reads_back(RequestCode::NodeVersion);
    code_reads_back(RequestCode::NodePackage);
}

/// Whatever its scope, a dispatch serves every number from 100 to 109: the
/// body is parsed as the arguments of the code with that number.
pub proof fn node_numbers_are_served<A, R, P, U>(
    scope: Scope,
    number: u32,
    body: Vec<u8>,
    s: Step<A, R, P, U>,
)
    requires
        is_step(scope, s),
        s.event == Event::<A, R, P, U>::Received(Ok((number, body))),
        100 <= number <= 109,
    ensures
        s.post matches State::Parsing(code) && s.action == Action::<A, R, P, U>::Parse(code, body)
            && code_number(code) == number,
        number == 100 ==> s.post == State::Parsing(RequestCode::NodeService),
        number == 101 ==> s.post == State::Parsing(RequestCode::NodeNetworkInterface),
        number == 102 ==> s.post == State::Parsing(RequestCode::NodeHostname),
        number == 103 ==> s.post == State::Parsing(RequestCode::NodeTimeSync),
        number == 104 ==> s.post == State::Parsing(RequestCode::NodeLogging),
        number == 105 ==> s.post == State::Parsing(RequestCode::NodeRemoteAccess),
        number == 106 ==> s.post == State::Parsing(RequestCode::NodePower),
        number == 107 ==> s.post == State::Parsing(RequestCode::NodeObservation),
        number == 108 ==> s.post == State::Parsing(RequestCode::NodeVersion),
        number == 109 ==> s.post == State::Parsing(RequestCode::NodePackage),
{
    lemma_numbers_of_codes();
}

/// Whether the step has the body parsed as the arguments of `code`.
pub open spec fn has_parsed<A, R, P, U>(
    s: Step<A, R, P, U>,
    code: RequestCode,
    body: Vec<u8>,
) -> bool {
    s.post == State::Parsing(code) && s.action == Action::<A, R, P, U>::Parse(code, body)
}

/// Whether the step makes a call of the handler, whose answer becomes a
/// response as `pending` says.
pub open spec fn makes_call<A, R, P, U>(
    s: Step<A, R, P, U>,
    call: Call<A>,
    pending: Pending,
) -> bool {
    s.post == State::Calling(pending) && s.action == Action::<A, R, P, U>::Call(call)
}

/// A dispatch of flat and node requests serves every flat number: the body is
/// parsed as the arguments of the code with that number, or the handler is
/// called right away, or, for an echo, an empty success is sent.
pub proof fn flat_numbers_are_served<A, R, P, U>(
    number: u32,
    body: Vec<u8>,
    s: Step<A, R, P, U>,
)
    requires
        is_step(Scope::All, s),
        s.event == Event::<A, R, P, U>::Received(Ok((number, body))),
    ensures
        number == 0 ==> has_parsed(s, RequestCode::TrustedDomainList, body),
        number == 6 ==> has_parsed(s, RequestCode::ReloadTi, body),
        number == 8 ==> has_parsed(s, RequestCode::TorExitNodeList, body),
        number == 9 ==> has_parsed(s, RequestCode::SamplingPolicyList, body),
        number == 10 ==> has_parsed(s, RequestCode::ReloadFilterRule, body),
        number == 13 ==> has_parsed(s, RequestCode::DeleteSamplingPolicy, body),
        number == 14 ==> has_parsed(s, RequestCode::InternalNetworkList, body),
        number == 15 ==> has_parsed(s, RequestCode::Allowlist, body),
        number == 16 ==> has_parsed(s, RequestCode::Blocklist, body),
        number == 18 ==> has_parsed(s, RequestCode::TrustedUserAgentList, body),
        number == 22 ==> has_parsed(s, RequestCode::DeleteCustomerData, body),
        number == 1 ==> makes_call(s, Call::Bare(Method::DnsStart), Pending::Opaque),
        number == 2 ==> makes_call(s, Call::Bare(Method::DnsStop), Pending::Opaque),
        number == 5 ==> makes_call(s, Call::Bare(Method::ReloadConfig), Pending::Opaque),
        number == 12 ==> makes_call(s, Call::Bare(Method::UpdateConfig), Pending::Opaque),
        number == 20 ==> makes_call(s, Call::Models(body), Pending::Opaque),
        number == 4 ==> makes_call(
            s,
            Call::NodePower(NodePowerRequest::Reboot),
            Pending::FlatPower,
        ),
        number == 21 ==> makes_call(
            s,
            Call::NodePower(NodePowerRequest::Shutdown),
            Pending::FlatPower,
        ),
        number == 7 ==> makes_call(
            s,
            Call::NodeObservation(NodeObservationRequest::ResourceUsage),
            Pending::FlatUsage,
        ),
        number == 19 ==> makes_call(
            s,
            Call::NodeObservation(NodeObservationRequest::ProcessList),
            Pending::FlatProcesses,
        ),
        number == 17 ==> s.post is Responding && s.action == Action::<A, R, P, U>::Send(
            Reply::Done(Ok(())),
        ),
{
    lemma_numbers_of_codes();
}

/// Every other number is refused by name, and nothing else is: a dispatch of
/// flat and node requests refuses 3 and 11, those from 23 to 99 and those
/// beyond 109, and a dispatch of node requests all below 100 and beyond 109.
pub proof fn exactly_the_other_numbers_are_refused<A, R, P, U>(
    scope: Scope,
    number: u32,
    body: Vec<u8>,
    s: Step<A, R, P, U>,
)
    requires
        is_step(scope, s),
        s.event == Event::<A, R, P, U>::Received(Ok((number, body))),
    ensures
        (s.action matches Action::Send(reply) && reply is Refusal) <==> (number == 3 || number == 11
            || 23 <= number <= 99 || number >= 110 || (scope is NodeOnly && number < 100)),
        s.action matches Action::Send(Reply::Refusal(text)) ==> s.post is Responding && text@
            == "unknown request code: "@ + decimal(number as nat),
{
    lemma_numbers_of_codes();
    assigned_numbers(number);
}

/// The arguments of a request reach the method that its number stands for,
/// and its answer is awaited.
pub proof fn arguments_reach_their_method<A, R, P, U>(
    scope: Scope,
    number: u32,
    args: A,
    received: Step<A, R, P, U>,
    parsed: Step<A, R, P, U>,
)
    requires
        is_step(scope, received),
        is_step(scope, parsed),
        parsed.pre == received.post,
        received.event matches Event::Received(Ok((n, _))) && n == number,
        parsed.event == Event::<A, R, P, U>::Parsed(Ok(Args::Opaque(args))),
    ensures
        parsed.post == State::Calling(Pending::Opaque),
        parsed.action matches Action::Call(Call::WithArgs(_, same)) && same == args,
        number == 0 ==> parsed.action->Call_0->WithArgs_0 is TrustedDomainList,
        number == 6 ==> parsed.action->Call_0->WithArgs_0 is ReloadTi,
        number == 8 ==> parsed.action->Call_0->WithArgs_0 is TorExitNodeList,
        number == 9 ==> parsed.action->Call_0->WithArgs_0 is SamplingPolicyList,
        number == 10 ==> parsed.action->Call_0->WithArgs_0 is UpdateTrafficFilterRules,
        number == 13 ==> parsed.action->Call_0->WithArgs_0 is DeleteSamplingPolicy,
        number == 14 ==> parsed.action->Call_0->WithArgs_0 is InternalNetworkList,
        number == 15 ==> parsed.action->Call_0->WithArgs_0 is Allowlist,
        number == 16 ==> parsed.action->Call_0->WithArgs_0 is Blocklist,
        number == 18 ==> parsed.action->Call_0->WithArgs_0 is TrustedUserAgentList,
        number == 22 ==> parsed.action->Call_0->WithArgs_0 is DeleteCustomerData,
        number == 100 ==> parsed.action->Call_0->WithArgs_0 is NodeService,
        number == 101 ==> parsed.action->Call_0->WithArgs_0 is NodeNetworkInterface,
        number == 102 ==> parsed.action->Call_0->WithArgs_0 is NodeHostname,
        number == 103 ==> parsed.action->Call_0->WithArgs_0 is NodeTimeSync,
        number == 104 ==> parsed.action->Call_0->WithArgs_0 is NodeLogging,
        number == 105 ==> parsed.action->Call_0->WithArgs_0 is NodeRemoteAccess,
        number == 108 ==> parsed.action->Call_0->WithArgs_0 is NodeVersion,
        number != 106 && number != 107 && number != 109,
{
    lemma_numbers_of_codes();
    assigned_numbers(number);
}

/// The arguments of the requests that dispatch looks into reach the handler
/// unchanged. An install is put to the handler for its verdict first.
pub proof fn typed_arguments_reach_the_handler<A, R, P, U>(scope: Scope, s: Step<A, R, P, U>)
    requires
        is_step(scope, s),
    ensures
        s.event matches Event::Parsed(Ok(Args::Power(req))) ==> s.action == Action::<
            A,
            R,
            P,
            U,
        >::Call(Call::NodePower(req)),
        s.event matches Event::Parsed(Ok(Args::Observation(req))) ==> s.post == State::Calling(
            Pending::Observation,
        ) && s.action == Action::<A, R, P, U>::Call(Call::NodeObservation(req)),
        s.event matches Event::Parsed(Ok(Args::Package(req))) ==> (if req is Install {
            s.post == State::Preflighting(req) && s.action == Action::<A, R, P, U>::Call(
                Call::Preflight,
            )
        } else {
            s.post == State::Calling(Pending::Package) && s.action == Action::<A, R, P, U>::Call(
                Call::NodePackage(req),
            )
        }),
{
}

/// A package request is served the same way wherever it is taken in.
pub proof fn package_requests_are_put_to_the_handler<A, R, P, U>(
    req: NodePackageRequest,
    r: (State, Action<A, R, P, U>),
)
    requires
        call_ensures(dispatch_node_package::<A, R, P, U>, (req,), r),
    ensures
        req is Install <==> r.1 == Action::<A, R, P, U>::Call(Call::Preflight),
        req is Install <==> r.0 == State::Preflighting(req),
        !(req is Install) <==> r.1 == Action::<A, R, P, U>::Call(Call::NodePackage(req)),
        !(req is Install) <==> r.0 == State::Calling(Pending::Package),
{
}

/// What the handler answers is what is sent, whatever it is: to a request
/// that dispatch does not look into, to an observation, and to a package
/// request that is no install.
pub proof fn answers_are_sent_unchanged<A, R, P, U>(scope: Scope, s: Step<A, R, P, U>)
    requires
        is_step(scope, s),
    ensures
        s.event matches Event::Handled(Answer::Opaque(result)) ==> s.post is Responding && s.action
            == Action::<A, R, P, U>::Send(Reply::Opaque(result)),
        s.event matches Event::Handled(Answer::Observation { result, .. }) ==> s.pre
            == State::Calling(Pending::Observation) ==> s.post is Responding && s.action
            == Action::<A, R, P, U>::Send(Reply::Observation(result)),
        s.event matches Event::Handled(Answer::Package(result)) ==> s.post is Responding && s.action
            == Action::<A, R, P, U>::Send(Reply::Package(result)),
{
}

/// A graceful power operation is answered with what the handler answered. An
/// immediate one is not answered, whatever the handler answered: the next
/// request is received.
pub proof fn power_answers_are_sent_unchanged<A, R, P, U>(
    scope: Scope,
    req: NodePowerRequest,
    result: Result<NodePowerResponse, String>,
    parsed: Step<A, R, P, U>,
    handled: Step<A, R, P, U>,
)
    requires
        is_step(scope, parsed),
        is_step(scope, handled),
        handled.pre == parsed.post,
        parsed.event == Event::<A, R, P, U>::Parsed(Ok(Args::Power(req))),
        handled.event == Event::<A, R, P, U>::Handled(Answer::Power(result)),
    ensures
        req is GracefulReboot || req is GracefulShutdown ==> handled.post is Responding
            && handled.action == Action::<A, R, P, U>::Send(Reply::Power(result)),
        req is Reboot || req is Shutdown ==> handled.post is Receiving && handled.action is Receive,
{
}

/// Exactly the graceful power operations are answered.
pub proof fn graceful_power_is_answered(req: NodePowerRequest, answered: bool)
    requires
        call_ensures(node_power_expects_response, (&req,), answered),
    ensures
        answered <==> req is GracefulReboot || req is GracefulShutdown,
{
}

/// A flat power request is answered: with success where the handler succeeded,
/// and otherwise with the handler's own text.
pub proof fn flat_power_is_answered<A, R, P, U>(
    result: Result<NodePowerResponse, String>,
    received: Step<A, R, P, U>,
    handled: Step<A, R, P, U>,
)
    requires
        is_step(Scope::All, received),
        is_step(Scope::All, handled),
        handled.pre == received.post,
        received.event matches Event::Received(Ok((n, _))) && (n == 4 || n == 21),
        handled.event == Event::<A, R, P, U>::Handled(Answer::Power(result)),
    ensures
        handled.post is Responding,
        handled.action matches Action::Send(Reply::Done(reply)) && {
            &&& reply is Ok <==> result is Ok
            &&& reply matches Err(text) ==> result == Err::<NodePowerResponse, String>(text)
        },
{
    lemma_numbers_of_codes();
}

/// A flat request for the resource usage is answered with the reading that
/// the handler gave, or with the handler's own text. A reading of another
/// kind is an error that renders it.
pub proof fn flat_usage_is_answered<A, R, P, U>(
    result: Result<NodeObservationResponse<P, U>, String>,
    rendering: String,
    received: Step<A, R, P, U>,
    handled: Step<A, R, P, U>,
)
    requires
        is_step(Scope::All, received),
        is_step(Scope::All, handled),
        handled.pre == received.post,
        received.event matches Event::Received(Ok((n, _))) && n == 7,
        handled.event == Event::<A, R, P, U>::Handled(Answer::Observation { result, rendering }),
    ensures
        handled.post is Responding,
        handled.action matches Action::Send(Reply::Usage(reply)) && {
            &&& reply is Ok <==> (result is Ok && result->Ok_0 is ResourceUsage)
            &&& reply matches Ok((hostname, resource_usage)) ==> result == Ok::<
                NodeObservationResponse<P, U>,
                String,
            >(NodeObservationResponse::ResourceUsage { hostname, resource_usage })
            &&& result matches Err(text) ==> reply == Err::<(String, U), String>(text)
            &&& result is Ok && reply is Err ==> reply->Err_0@
                == "unexpected node_observation response: "@ + rendering@
        },
{
    lemma_numbers_of_codes();
}

/// A flat request for the process list is answered with the reading that the
/// handler gave, or with the handler's own text. A reading of another kind is
/// an error that renders it.
pub proof fn flat_process_list_is_answered<A, R, P, U>(
    result: Result<NodeObservationResponse<P, U>, String>,
    rendering: String,
    received: Step<A, R, P, U>,
    handled: Step<A, R, P, U>,
)
    requires
        is_step(Scope::All, received),
        is_step(Scope::All, handled),
        handled.pre == received.post,
        received.event matches Event::Received(Ok((n, _))) && n == 19,
        handled.event == Event::<A, R, P, U>::Handled(Answer::Observation { result, rendering }),
    ensures
        handled.post is Responding,
        handled.action matches Action::Send(Reply::Processes(reply)) && {
            &&& reply is Ok <==> (result is Ok && result->Ok_0 is ProcessList)
            &&& reply matches Ok(processes) ==> result == Ok::<
                NodeObservationResponse<P, U>,
                String,
            >(NodeObservationResponse::ProcessList { processes })
            &&& result matches Err(text) ==> reply == Err::<Vec<P>, String>(text)
            &&& result is Ok && reply is Err ==> reply->Err_0@
                == "unexpected node_observation response: "@ + rendering@
        },
{
    lemma_numbers_of_codes();
}

/// The functions that turn an observation into the answer of a flat request
/// give back the reading that was asked for and the text of a failure, and
/// nothing else.
pub proof fn flat_readings_are_kept<P, U>(
    result: Result<NodeObservationResponse<P, U>, String>,
    rendering: &str,
    usage: Result<(String, U), String>,
    processes: Result<Vec<P>, String>,
)
    requires
        call_ensures(usage_reply::<P, U>, (result, rendering), usage),
        call_ensures(processes_reply::<P, U>, (result, rendering), processes),
    ensures
        result matches Ok(NodeObservationResponse::ResourceUsage { hostname, resource_usage })
            ==> usage == Ok::<(String, U), String>((hostname, resource_usage)) && processes is Err,
        result matches Ok(NodeObservationResponse::ProcessList { processes: list }) ==> processes
            == Ok::<Vec<P>, String>(list) && usage is Err,
        result matches Ok(NodeObservationResponse::Uptime { .. }) ==> usage is Err && processes
            is Err,
        result matches Err(text) ==> usage == Err::<(String, U), String>(text),
        result matches Err(text) ==> processes == Err::<Vec<P>, String>(text),
        result is Ok && usage is Err ==> usage->Err_0@ == "unexpected node_observation response: "@
            + rendering@,
        result is Ok && processes is Err ==> processes->Err_0@
            == "unexpected node_observation response: "@ + rendering@,
{
}

/// The verdict of the handler on an install is sent unchanged. Only the
/// verdict to go ahead leads on to the install, for the request that was
/// judged; any other one, and a failure to judge, ends it.
pub proof fn verdicts_are_sent_unchanged<A, R, P, U>(
    scope: Scope,
    req: NodePackageRequest,
    verdict: Result<InstallPreflight, String>,
    s: Step<A, R, P, U>,
)
    requires
        is_step(scope, s),
        s.pre == State::Preflighting(req),
        s.event == Event::<A, R, P, U>::Handled(Answer::Preflight(verdict)),
    ensures
        s.action == Action::<A, R, P, U>::Send(Reply::Preflight(verdict)),
        verdict matches Ok(v) && v is Proceed ==> s.post == State::Judged(Some(req)),
        !(verdict matches Ok(v) && v is Proceed) ==> s.post == State::Judged(None),
{
}

/// Once the verdict to go ahead is sent, the handler is called with the
/// request that was judged and with a reader that has all the bytes which the
/// request declares still to hand out.
pub proof fn install_reads_the_declared_size<A, R, P, U>(
    scope: Scope,
    req: NodePackageRequest,
    s: Step<A, R, P, U>,
)
    requires
        is_step(scope, s),
        s.pre == State::Judged(Some(req)),
        s.event == Event::<A, R, P, U>::Sent(Ok(())),
    ensures
        ({
            &&& req matches NodePackageRequest::Install { size, .. }
            &&& s.post == State::Installing(size)
            &&& s.action matches Action::Call(Call::Install(same, reader))
            &&& same == req
            &&& reader@.size == size
            &&& reader@.remaining == size
            &&& !reader@.failed
        }),
{
}

/// What follows when the handler is done with an install. Bytes that it left
/// are read on. If there are none, its answer is sent unchanged. After a read
/// that failed, an answer of success is turned into a failure, and a failure
/// is sent unchanged.
pub proof fn install_is_answered<A, R, P, U>(
    scope: Scope,
    result: Result<NodePackageResponse, String>,
    s: Step<A, R, P, U>,
)
    requires
        is_step(scope, s),
        s.event matches Event::Handled(Answer::Installed { result: r, .. }) && r == result,
    ensures
        s.event matches Event::Handled(Answer::Installed { reader, .. }) && (
        if !reader@.failed && reader@.remaining > 0 {
            &&& s.action is ReadChunk
            &&& s.post matches State::Draining { result: kept, reader: rest }
            &&& kept == result
            &&& rest@ == reader@
        } else if !reader@.failed || result is Err {
            &&& s.post is Responding
            &&& s.action == Action::<A, R, P, U>::Send(Reply::Package(result))
        } else {
            &&& s.post is Responding
            &&& s.action matches Action::Send(Reply::Package(Err(text)))
            &&& text@ == "failed to receive the package payload: "@
                + "the package transfer already failed"@
        }),
{
}

/// What follows a read of what the handler left. A chunk short of the end is
/// taken off what remains, and the next one is read. The last one leads to
/// the handler's answer, unchanged. A chunk beyond the end, and a read that
/// failed, turn an answer of success into a failure that says why, and leave
/// a failure unchanged.
pub proof fn drained_install_is_answered<A, R, P, U>(
    scope: Scope,
    read: Result<Vec<u8>, IoError>,
    s: Step<A, R, P, U>,
)
    requires
        is_step(scope, s),
        s.event == Event::<A, R, P, U>::Chunk(read),
    ensures
        s.pre matches State::Draining { result, reader } && match read {
            Ok(chunk) => if chunk@.len() < reader@.remaining {
                &&& s.action is ReadChunk
                &&& s.post matches State::Draining { result: kept, reader: rest }
                &&& kept == result
                &&& rest@.size == reader@.size
                &&& rest@.remaining == reader@.remaining - chunk@.len()
                &&& !rest@.failed
            } else if chunk@.len() == reader@.remaining || result is Err {
                &&& s.post is Responding
                &&& s.action == Action::<A, R, P, U>::Send(Reply::Package(result))
            } else {
                &&& s.post is Responding
                &&& s.action matches Action::Send(Reply::Package(Err(text)))
                &&& text@ == "failed to receive the package payload: "@ + ("package chunk of "@
                    + decimal(chunk@.len()) + " bytes overruns the "@ + decimal(reader@.remaining)
                    + " bytes still expected"@)
            },
            Err(cause) => if result is Err {
                &&& s.post is Responding
                &&& s.action == Action::<A, R, P, U>::Send(Reply::Package(result))
            } else {
                &&& s.post is Responding
                &&& s.action matches Action::Send(Reply::Package(Err(text)))
                &&& text@ == "failed to receive the package payload: "@ + cause.message@
            },
        },
{
}

/// The answer to an install is the handler's own, but for a success after a
/// payload that could not be received.
pub proof fn install_answer_is_kept(
    result: Result<NodePackageResponse, String>,
    failure: Option<String>,
    reply: Result<NodePackageResponse, String>,
)
    requires
        call_ensures(install_reply, (result, failure), reply),
    ensures
        failure is None || result is Err ==> reply == result,
        failure is Some && result is Ok ==> reply is Err && reply->Err_0@
            == "failed to receive the package payload: "@ + failure->0@,
{
}

/// Once a response is sent, the next request is received, except that the
/// verdict to go ahead leads on to the install. A response that could not be
/// sent ends the dispatch with that error.
pub proof fn dispatch_goes_on_after_a_response<A, R, P, U>(
    scope: Scope,
    sent: Result<(), IoError>,
    s: Step<A, R, P, U>,
)
    requires
        is_step(scope, s),
        s.event == Event::<A, R, P, U>::Sent(sent),
    ensures
        sent is Ok && !(s.pre matches State::Judged(Some(_))) ==> s.post is Receiving && s.action
            is Receive,
        sent matches Err(e) ==> s.post is Stopped && s.action == Action::<A, R, P, U>::Stop(
            Err(HandlerError::SendError(e)),
        ),
{
}

/// A receive that fails ends the dispatch: without an error where the stream
/// has ended, and otherwise with that error.
pub proof fn failed_receive_ends_the_dispatch<A, R, P, U>(
    scope: Scope,
    e: IoError,
    s: Step<A, R, P, U>,
)
    requires
        is_step(scope, s),
        s.event == Event::<A, R, P, U>::Received(Err(e)),
    ensures
        s.post is Stopped,
        e.kind is UnexpectedEof ==> s.action == Action::<A, R, P, U>::Stop(Ok(())),
        !(e.kind is UnexpectedEof) ==> s.action == Action::<A, R, P, U>::Stop(
            Err(HandlerError::RecvError(e)),
        ),
{
}

/// Only the arguments of a threat-intelligence reload and of a power request
/// that do not parse are reported as invalid arguments. In any case the
/// dispatch ends with the kind and the message that the parse reported.
pub proof fn parse_failures_are_reported<A, R, P, U>(
    scope: Scope,
    number: u32,
    e: IoError,
    received: Step<A, R, P, U>,
    parsed: Step<A, R, P, U>,
)
    requires
        is_step(scope, received),
        is_step(scope, parsed),
        parsed.pre == received.post,
        received.event matches Event::Received(Ok((n, _))) && n == number,
        parsed.event == Event::<A, R, P, U>::Parsed(Err(e)),
    ensures
        parsed.post is Stopped,
        parsed.action matches Action::Stop(Err(HandlerError::RecvError(reported))) && {
            &&& reported.kind == e.kind
            &&& reported.message == e.message
            &&& number == 6 || number == 106 ==> reported.class == Some(
                ProtocolErrorKind::InvalidArgs,
            )
            &&& number != 6 && number != 106 ==> reported.class == e.class
        },
{
    lemma_numbers_of_codes();
    assigned_numbers(number);
}

/// Whether `event` is what comes of doing `action`.
pub open spec fn is_outcome<A, R, P, U>(
    action: Action<A, R, P, U>,
    event: Event<A, R, P, U>,
) -> bool {
    match action {
        Action::Receive => event is Received,
        Action::Parse(code, _) => event matches Event::Parsed(parsed) && (parsed matches Ok(args)
            ==> (if code is NodePower {
            args is Power
        } else if code is NodeObservation {
            args is Observation
        } else if code is NodePackage {
            args is Package
        } else {
            args is Opaque
        })),
        Action::Call(call) => event matches Event::Handled(answer) && match call {
            Call::Bare(_) | Call::WithArgs(_, _) | Call::Models(_) => answer is Opaque,
            Call::NodePower(_) => answer is Power,
            Call::NodeObservation(_) => answer is Observation,
            Call::NodePackage(_) => answer is Package,
            Call::Preflight => answer is Preflight,
            Call::Install(_, lent) => answer matches Answer::Installed { reader, .. }
                && reader@.size == lent@.size,
        },
        Action::Send(_) => event is Sent,
        Action::ReadChunk => event is Chunk,
        Action::Stop(_) => false,
    }
}

/// After any step, exactly the outcomes of what is to be done are taken: the
/// dispatch is never stuck on one, and never takes another event for one.
pub proof fn exactly_the_outcomes_are_taken<A, R, P, U>(
    scope: Scope,
    s: Step<A, R, P, U>,
    event: Event<A, R, P, U>,
    taken: bool,
)
    requires
        is_step(scope, s),
        call_ensures(fits::<A, R, P, U>, (&s.post, &event), taken),
    ensures
        taken <==> is_outcome(s.action, event),
        taken <==> accepts(s.post, event),
{
    lemma_numbers_of_codes();
    if let Event::Received(Ok((number, _))) = s.event {
        assigned_numbers(number);
    }
}

/// In a run that serves one request, arguments are parsed only right after the
/// request came in, for its own code.
proof fn lemma_parsed_second<A, R, P, U>(scope: Scope, steps: Seq<Step<A, R, P, U>>, i: int)
    requires
        serves_one_request(scope, steps),
        0 <= i < steps.len(),
        steps[i].event is Parsed,
    ensures
        i == 1,
        steps[0].event matches Event::Received(Ok((number, _))) && steps[1].pre == State::Parsing(
            code_of(number),
        ),
{
    assert(is_step(scope, steps[i]));
    if i > 0 {
        assert(steps[i].pre == steps[i - 1].post);
        assert(is_step(scope, steps[i - 1]));
        if i > 1 {
            assert(steps[i - 1].pre == steps[i - 2].post);
            assert(steps[i - 2].post != State::Receiving);
        }
    }
}

proof fn lemma_immediate_second<A, R, P, U>(scope: Scope, steps: Seq<Step<A, R, P, U>>, n: int)
    requires
        serves_one_request(scope, steps),
        0 <= n <= steps.len(),
    ensures
        has_immediate_power(steps.take(n)) <==> n >= 2 && is_immediate_power(steps[1]),
    decreases n,
{
    if n > 0 {
        lemma_immediate_second(scope, steps, n - 1);
        assert(steps.take(n).drop_last() =~= steps.take(n - 1));
        assert(steps.take(n).last() == steps[n - 1]);
        if is_immediate_power(steps[n - 1]) {
            lemma_parsed_second(scope, steps, n - 1);
        }
    }
}

/// Only an immediate power operation goes without an answer. Every request
/// under another number is answered, and so is a graceful power operation.
pub proof fn only_immediate_power_goes_unanswered<A, R, P, U>(
    scope: Scope,
    number: u32,
    steps: Seq<Step<A, R, P, U>>,
)
    requires
        serves_one_request(scope, steps),
        steps[0].event matches Event::Received(Ok((n, _))) && n == number,
    ensures
        number != 106 ==> frames(steps) >= 1,
        number == 106 ==> {
            &&& steps.len() >= 2
            &&& steps[1].event matches Event::Parsed(Ok(Args::Power(req)))
            &&& frames(steps) == 0 <==> req is Reboot || req is Shutdown
        },
{
    lemma_numbers_of_codes();
    lemma_immediate_second(scope, steps, steps.len() as int);
    assert(steps.take(steps.len() as int) =~= steps);
    one_terminal_frame(scope, steps);
    assert(is_step(scope, steps[0]));
    if number == 106 {
        assert(steps[0].post == State::Parsing(RequestCode::NodePower));
        assert(is_step(scope, steps[1]));
        assert(steps[1].pre == steps[0].post);
        if steps[1].event == Event::<A, R, P, U>::Parsed(Err(steps[1].event->Parsed_0->Err_0)) {
            assert(steps[1].post == State::Stopped);
            assert(is_step(scope, steps[2]));
            assert(steps[2].pre == steps[1].post);
        }
    } else if has_immediate_power(steps) {
        assert(is_step(scope, steps[1]));
        lemma_parsed_second(scope, steps, 1);
        code_reads_back(RequestCode::NodePower);
    }
}

} // verus!
