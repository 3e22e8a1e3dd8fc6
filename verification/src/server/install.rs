//! The install exchange of the manager, as a state machine.
//!
//! The exchange sends the framed request, takes the verdict of the agent
//! and, only if the agent asks for it, streams the package and awaits one
//! answer. The machine is handed what happened last and answers with what is
//! to be done next.

use vstd::pervasive::unreached;
use vstd::prelude::*;

use super::api::ApiError;
use super::node::{InstallOutcome, TerminalPreflight};
use crate::protocol_error::IoError;
use crate::types::node::{InstallPreflight, NodePackageResponse};

verus! {

use crate::request::package::{fresh_transfer, is_complete, received, total};
use crate::request::package::exact_payload_completes;

/// The most bytes that one chunk of a package holds.
pub const PACKAGE_CHUNK_LEN: u64 = 65536;

/// The error code with which a transfer is aborted.
pub const PACKAGE_TRANSFER_ABORTED: u32 = 1;

/// Where an install is.
#[derive(Debug)]
pub enum InstallState {
    /// The request is being sent.
    Requesting { size: u64 },
    /// The verdict is awaited.
    AwaitingVerdict { size: u64 },
    /// The source is being read, with so many bytes to go.
    Reading { size: u64, remaining: u64 },
    /// A chunk is being sent, with so many bytes to go behind it.
    Sending { size: u64, remaining: u64 },
    /// The answer is awaited.
    AwaitingResponse,
    /// The install is over.
    Finished,
}

/// What happened.
#[derive(Debug)]
pub enum InstallEvent {
    /// The request was sent.
    Requested(Result<(), IoError>),
    /// The verdict came in.
    Verdict(Result<Result<InstallPreflight, String>, IoError>),
    /// The source was read. An empty read is the end of the source.
    Read(Result<Vec<u8>, IoError>),
    /// A chunk was sent.
    ChunkSent(Result<(), IoError>),
    /// The answer came in.
    Response(Result<Result<NodePackageResponse, String>, IoError>),
}

/// What is to be done next.
#[derive(Debug)]
pub enum InstallAction {
    /// Send the framed request.
    SendRequest,
    /// Receive the verdict.
    ReceiveVerdict,
    /// Read at most so many bytes of the source.
    Read(usize),
    /// Send a chunk.
    SendChunk(Vec<u8>),
    /// Receive the answer.
    ReceiveResponse,
    /// Reset the stream with the code and fail. The answer is not awaited.
    Abort(u32, ApiError),
    /// Report the outcome.
    Finish(Result<InstallOutcome, ApiError>),
}

/// The most bytes that are read next.
pub open spec fn wanted(remaining: u64) -> u64 {
    if remaining < PACKAGE_CHUNK_LEN {
        remaining
    } else {
        PACKAGE_CHUNK_LEN
    }
}

/// Whether `event` is the outcome of what was to be done in `state`. A read
/// yields no more bytes than it asked for.
pub open spec fn install_accepts(state: InstallState, event: InstallEvent) -> bool {
    match state {
        InstallState::Requesting { .. } => event is Requested,
        InstallState::AwaitingVerdict { .. } => event is Verdict,
        InstallState::Reading { size, remaining } => {
            &&& 0 < remaining <= size
            &&& event matches InstallEvent::Read(r)
            &&& r matches Ok(chunk) ==> chunk@.len() <= wanted(remaining)
        },
        InstallState::Sending { size, remaining } => remaining <= size && event is ChunkSent,
        InstallState::AwaitingResponse => event is Response,
        InstallState::Finished => false,
    }
}

/// What follows when `remaining` bytes of the package are still to be sent.
pub open spec fn on_remaining(
    size: u64,
    remaining: u64,
    post: InstallState,
    action: InstallAction,
) -> bool {
    if remaining == 0 {
        post == InstallState::AwaitingResponse && action == InstallAction::ReceiveResponse
    } else {
        &&& post == (InstallState::Reading { size, remaining })
        &&& action matches InstallAction::Read(want)
        &&& want == wanted(remaining)
    }
}

/// The failure of a transfer.
pub open spec fn on_abort(error: ApiError, post: InstallState, action: InstallAction) -> bool {
    post == InstallState::Finished && action == InstallAction::Abort(
        PACKAGE_TRANSFER_ABORTED,
        error,
    )
}

/// The end of an install.
pub open spec fn on_finish(
    outcome: Result<InstallOutcome, ApiError>,
    post: InstallState,
    action: InstallAction,
) -> bool {
    post == InstallState::Finished && action == InstallAction::Finish(outcome)
}

/// What follows the verdict of the agent.
pub open spec fn on_verdict(
    size: u64,
    verdict: Result<Result<InstallPreflight, String>, IoError>,
    post: InstallState,
    action: InstallAction,
) -> bool {
    match verdict {
        Err(e) => on_finish(Err(ApiError::Verdict(e)), post, action),
        Ok(Err(text)) => on_finish(Err(ApiError::Remote(text)), post, action),
        Ok(Ok(InstallPreflight::AlreadyApplied)) => on_finish(
            Ok(InstallOutcome::Preflight(TerminalPreflight::AlreadyApplied)),
            post,
            action,
        ),
        Ok(Ok(InstallPreflight::InsufficientDiskSpace { filesystem, required, available })) =>
            on_finish(
            Ok(
                InstallOutcome::Preflight(
                    TerminalPreflight::InsufficientDiskSpace { filesystem, required, available },
                ),
            ),
            post,
            action,
        ),
        Ok(Ok(InstallPreflight::Proceed)) => on_remaining(size, size, post, action),
    }
}

/// Whether `event` in `pre` leads to `post` with `action` to be done.
pub open spec fn install_transition(
    pre: InstallState,
    event: InstallEvent,
    post: InstallState,
    action: InstallAction,
) -> bool {
    match (pre, event) {
        (InstallState::Requesting { size }, InstallEvent::Requested(Ok(()))) => post == (
        InstallState::AwaitingVerdict { size }) && action == InstallAction::ReceiveVerdict,
        (InstallState::Requesting { .. }, InstallEvent::Requested(Err(e))) => on_finish(
            Err(ApiError::Transport(e)),
            post,
            action,
        ),
        (InstallState::AwaitingVerdict { size }, InstallEvent::Verdict(verdict)) => on_verdict(
            size,
            verdict,
            post,
            action,
        ),
        (InstallState::Reading { .. }, InstallEvent::Read(Err(e))) => on_abort(
            ApiError::Source(e),
            post,
            action,
        ),
        (InstallState::Reading { size, remaining }, InstallEvent::Read(Ok(chunk))) =>
            if chunk@.len() == 0 {
            on_abort(
                ApiError::SourceEnded { sent: (size - remaining) as u64, size },
                post,
                action,
            )
        } else {
            post == (InstallState::Sending { size, remaining: (remaining - chunk@.len()) as u64 })
                && action == InstallAction::SendChunk(chunk)
        },
        (InstallState::Sending { size, remaining }, InstallEvent::ChunkSent(Ok(()))) =>
            on_remaining(size, remaining, post, action),
        (InstallState::Sending { .. }, InstallEvent::ChunkSent(Err(e))) => on_abort(
            ApiError::Transport(e),
            post,
            action,
        ),
        (InstallState::AwaitingResponse, InstallEvent::Response(answer)) => on_finish(
            match answer {
                Ok(Ok(response)) => Ok(InstallOutcome::Applied(response)),
                Ok(Err(text)) => Err(ApiError::Remote(text)),
                Err(e) => Err(ApiError::Response(e)),
            },
            post,
            action,
        ),
        _ => false,
    }
}

/// Starts the install of a package of `size` bytes.
pub fn start_install(size: u64) -> (r: (InstallState, InstallAction))
    ensures
        r.0 == (InstallState::Requesting { size }),
        r.1 == InstallAction::SendRequest,
{
    (InstallState::Requesting { size }, InstallAction::SendRequest)
}

/// Returns whether `event` is the outcome of what was to be done in `state`.
pub fn install_fits(state: &InstallState, event: &InstallEvent) -> (r: bool)
    ensures
        r == install_accepts(*state, *event),
{
    match (state, event) {
        (InstallState::Requesting { .. }, InstallEvent::Requested(_)) => true,
        (InstallState::AwaitingVerdict { .. }, InstallEvent::Verdict(_)) => true,
        (InstallState::Reading { size, remaining }, InstallEvent::Read(r)) => {
            let in_bounds = match r {
                Ok(chunk) => chunk.len() as u64 <= next_read(*remaining),
                Err(_) => true,
            };
            0 < *remaining && *remaining <= *size && in_bounds
        },
        (InstallState::Sending { size, remaining }, InstallEvent::ChunkSent(_)) => {
            *remaining <= *size
        },
        (InstallState::AwaitingResponse, InstallEvent::Response(_)) => true,
        _ => false,
    }
}

fn next_read(remaining: u64) -> (want: u64)
    ensures
        want == wanted(remaining),
{
    if remaining < PACKAGE_CHUNK_LEN {
        remaining
    } else {
        PACKAGE_CHUNK_LEN
    }
}

/// One step of the install exchange.
pub fn install_exchange(state: InstallState, event: InstallEvent) -> (r: (
    InstallState,
    InstallAction,
))
    requires
        install_accepts(state, event),
    ensures
        install_transition(state, event, r.0, r.1),
{
    match event {
        InstallEvent::Requested(requested) => match state {
            InstallState::Requesting { size } => match requested {
                Ok(()) => (InstallState::AwaitingVerdict { size }, InstallAction::ReceiveVerdict),
                Err(e) => finish(Err(ApiError::Transport(e))),
            },
            _ => unreached(),
        },
        InstallEvent::Verdict(verdict) => match state {
            InstallState::AwaitingVerdict { size } => take_verdict(size, verdict),
            _ => unreached(),
        },
        InstallEvent::Read(read) => match state {
            InstallState::Reading { size, remaining } => match read {
                Ok(chunk) => take_chunk(size, remaining, chunk),
                Err(e) => abort(ApiError::Source(e)),
            },
            _ => unreached(),
        },
        InstallEvent::ChunkSent(sent) => match state {
            InstallState::Sending { size, remaining } => match sent {
                Ok(()) => send_package(size, remaining),
                Err(e) => abort(ApiError::Transport(e)),
            },
            _ => unreached(),
        },
        InstallEvent::Response(answer) => match answer {
            Ok(Ok(response)) => finish(Ok(InstallOutcome::Applied(response))),
            Ok(Err(text)) => finish(Err(ApiError::Remote(text))),
            Err(e) => finish(Err(ApiError::Response(e))),
        },
    }
}

fn finish(outcome: Result<InstallOutcome, ApiError>) -> (r: (InstallState, InstallAction))
    ensures
        on_finish(outcome, r.0, r.1),
{
    (InstallState::Finished, InstallAction::Finish(outcome))
}

fn abort(error: ApiError) -> (r: (InstallState, InstallAction))
    ensures
        on_abort(error, r.0, r.1),
{
    (InstallState::Finished, InstallAction::Abort(PACKAGE_TRANSFER_ABORTED, error))
}

/// Takes the verdict of the agent.
fn take_verdict(size: u64, verdict: Result<Result<InstallPreflight, String>, IoError>) -> (r: (
    InstallState,
    InstallAction,
))
    ensures
        on_verdict(size, verdict, r.0, r.1),
{
    match verdict {
        Err(e) => finish(Err(ApiError::Verdict(e))),
        Ok(Err(text)) => finish(Err(ApiError::Remote(text))),
        Ok(Ok(InstallPreflight::AlreadyApplied)) => finish(
            Ok(InstallOutcome::Preflight(TerminalPreflight::AlreadyApplied)),
        ),
        Ok(Ok(InstallPreflight::InsufficientDiskSpace { filesystem, required, available })) => {
            finish(
                Ok(
                    InstallOutcome::Preflight(
                        TerminalPreflight::InsufficientDiskSpace {
                            filesystem,
                            required,
                            available,
                        },
                    ),
                ),
            )
        },
        Ok(Ok(InstallPreflight::Proceed)) => send_package(size, size),
    }
}

/// Goes on with a package of which `remaining` bytes are to be sent: the
/// source is asked for no more than those.
pub fn send_package(size: u64, remaining: u64) -> (r: (InstallState, InstallAction))
    ensures
        on_remaining(size, remaining, r.0, r.1),
{
    if remaining == 0 {
        return (InstallState::AwaitingResponse, InstallAction::ReceiveResponse);
    }
    let want: usize = next_read(remaining) as usize;
    (InstallState::Reading { size, remaining }, InstallAction::Read(want))
}

/// Takes what was read from the source.
fn take_chunk(size: u64, remaining: u64, chunk: Vec<u8>) -> (r: (InstallState, InstallAction))
    requires
        0 < remaining <= size,
        chunk@.len() <= wanted(remaining),
    ensures
        chunk@.len() == 0 ==> on_abort(
            ApiError::SourceEnded { sent: (size - remaining) as u64, size },
            r.0,
            r.1,
        ),
        chunk@.len() > 0 ==> r.0 == (InstallState::Sending {
            size,
            remaining: (remaining - chunk@.len()) as u64,
        }) && r.1 == InstallAction::SendChunk(chunk),
{
    if chunk.len() == 0 {
        return abort(ApiError::SourceEnded { sent: size - remaining, size });
    }
    let len: u64 = chunk.len() as u64;
    (InstallState::Sending { size, remaining: remaining - len }, InstallAction::SendChunk(chunk))
}

/// One step of an install.
pub struct InstallStep {
    pub pre: InstallState,
    pub event: InstallEvent,
    pub post: InstallState,
    pub action: InstallAction,
}

/// Whether `steps` are those of the install of a package of `size` bytes,
/// from its start.
pub open spec fn is_install_run(size: u64, steps: Seq<InstallStep>) -> bool {
    &&& forall|i: int|
        0 <= i < steps.len() ==> install_accepts((#[trigger] steps[i]).pre, steps[i].event)
            && install_transition(steps[i].pre, steps[i].event, steps[i].post, steps[i].action)
    &&& forall|i: int| 0 < i < steps.len() ==> (#[trigger] steps[i]).pre == steps[i - 1].post
    &&& steps.len() > 0 ==> steps[0].pre == (InstallState::Requesting { size })
}

/// The bytes that `steps` send to the agent.
pub open spec fn bytes_sent(steps: Seq<InstallStep>) -> Seq<u8>
    decreases steps.len(),
{
    if steps.len() == 0 {
        Seq::empty()
    } else {
        match steps.last().action {
            InstallAction::SendChunk(chunk) => bytes_sent(steps.drop_last()) + chunk@,
            _ => bytes_sent(steps.drop_last()),
        }
    }
}

/// The bytes that `steps` read from the source.
pub open spec fn bytes_read(steps: Seq<InstallStep>) -> Seq<u8>
    decreases steps.len(),
{
    if steps.len() == 0 {
        Seq::empty()
    } else {
        match steps.last().event {
            InstallEvent::Read(Ok(chunk)) => bytes_read(steps.drop_last()) + chunk@,
            _ => bytes_read(steps.drop_last()),
        }
    }
}

/// The lengths of the chunks that `steps` send.
pub open spec fn chunk_lens(steps: Seq<InstallStep>) -> Seq<nat>
    decreases steps.len(),
{
    if steps.len() == 0 {
        Seq::empty()
    } else {
        match steps.last().action {
            InstallAction::SendChunk(chunk) => chunk_lens(steps.drop_last()).push(chunk@.len()),
            _ => chunk_lens(steps.drop_last()),
        }
    }
}

/// Whether one of `steps` asks for the answer.
pub open spec fn awaits_response(steps: Seq<InstallStep>) -> bool
    decreases steps.len(),
{
    steps.len() > 0 && (steps.last().action is ReceiveResponse || awaits_response(
        steps.drop_last(),
    ))
}

/// Whether one of `steps` takes the verdict to go ahead.
pub open spec fn told_to_proceed(steps: Seq<InstallStep>) -> bool
    decreases steps.len(),
{
    steps.len() > 0 && (steps.last().event == InstallEvent::Verdict(
        Ok(Ok(InstallPreflight::Proceed)),
    ) || told_to_proceed(steps.drop_last()))
}

/// What has happened by the time a state is reached.
spec fn install_progress(size: u64, steps: Seq<InstallStep>, state: InstallState) -> bool {
    let sent = bytes_sent(steps);
    let read = bytes_read(steps);
    let lens = chunk_lens(steps);
    &&& sent == read
    &&& total(lens) == sent.len()
    &&& sent.len() <= size
    &&& forall|i: int| 0 <= i < lens.len() ==> #[trigger] lens[i] > 0
    &&& !told_to_proceed(steps) ==> sent.len() == 0 && !awaits_response(steps)
    &&& match state {
        InstallState::Requesting { size: s } => s == size && !told_to_proceed(steps),
        InstallState::AwaitingVerdict { size: s } => s == size && !told_to_proceed(steps),
        InstallState::Reading { size: s, remaining } => s == size && 0 < remaining
            && sent.len() + remaining == size && !awaits_response(steps),
        InstallState::Sending { size: s, remaining } => s == size && sent.len() + remaining == size
            && !awaits_response(steps),
        InstallState::AwaitingResponse => sent.len() == size,
        InstallState::Finished => {
            &&& steps.len() > 0
            &&& steps.last().action is Abort ==> !awaits_response(steps)
            &&& steps.last().action matches InstallAction::Finish(Ok(InstallOutcome::Applied(_)))
                ==> sent.len() == size && told_to_proceed(steps)
            &&& steps.last().action matches InstallAction::Finish(Ok(InstallOutcome::Preflight(_)))
                ==> !told_to_proceed(steps)
        },
    }
    &&& (state is Reading || state is Sending || state is AwaitingResponse) ==> told_to_proceed(
        steps,
    )
}

proof fn lemma_install_progress(size: u64, steps: Seq<InstallStep>, n: int)
    requires
        is_install_run(size, steps),
        1 <= n <= steps.len(),
    ensures
        install_progress(size, steps.take(n), steps[n - 1].post),
    decreases n,
{
    let s = steps[n - 1];
    let now = steps.take(n);
    let before = steps.take(n - 1);
    assert(install_accepts(s.pre, s.event) && install_transition(
        s.pre,
        s.event,
        s.post,
        s.action,
    ));
    assert(now.drop_last() =~= before);
    assert(now.last() == s);
    if n > 1 {
        lemma_install_progress(size, steps, n - 1);
        assert(s.pre == steps[n - 2].post);
    } else {
        assert(before =~= Seq::<InstallStep>::empty());
        assert(bytes_sent(before).len() == 0 && bytes_read(before).len() == 0);
        assert(bytes_sent(before) =~= bytes_read(before));
        assert(chunk_lens(before).len() == 0);
        assert(!told_to_proceed(before) && !awaits_response(before));
    }
    if let InstallAction::SendChunk(chunk) = s.action {
        assert(chunk_lens(now).drop_last() =~= chunk_lens(before));
    }
}

/// What reaches the agent is what was read from the source, byte for byte,
/// and never more than the declared size. Nothing moves unless the agent
/// asked for it.
pub proof fn agent_gets_what_the_source_gave(size: u64, steps: Seq<InstallStep>)
    requires
        is_install_run(size, steps),
        steps.len() > 0,
    ensures
        bytes_sent(steps) == bytes_read(steps),
        bytes_sent(steps).len() <= size,
        !told_to_proceed(steps) ==> bytes_sent(steps).len() == 0,
{
    lemma_install_progress(size, steps, steps.len() as int);
    assert(steps.take(steps.len() as int) =~= steps);
}

/// An install that was applied transferred exactly the declared size.
pub proof fn applied_means_exactly_size_bytes(size: u64, steps: Seq<InstallStep>)
    requires
        is_install_run(size, steps),
        steps.len() > 0,
        steps.last().action matches InstallAction::Finish(Ok(InstallOutcome::Applied(_))),
    ensures
        bytes_sent(steps).len() == size,
{
    lemma_install_progress(size, steps, steps.len() as int);
    assert(steps.take(steps.len() as int) =~= steps);
}

/// A terminal verdict moves no byte: nothing was read from the source, and
/// nothing was sent.
pub proof fn terminal_verdict_moves_no_byte(size: u64, steps: Seq<InstallStep>)
    requires
        is_install_run(size, steps),
        steps.len() > 0,
        steps.last().action matches InstallAction::Finish(Ok(InstallOutcome::Preflight(_))),
    ensures
        bytes_read(steps).len() == 0,
        bytes_sent(steps).len() == 0,
        !awaits_response(steps),
{
    lemma_install_progress(size, steps, steps.len() as int);
    assert(steps.take(steps.len() as int) =~= steps);
}

/// A transfer that is aborted is reset with the code for it, and no answer
/// was awaited.
pub proof fn aborted_transfer_awaits_no_answer(size: u64, steps: Seq<InstallStep>)
    requires
        is_install_run(size, steps),
        steps.len() > 0,
        steps.last().action is Abort,
    ensures
        steps.last().action->Abort_0 == PACKAGE_TRANSFER_ABORTED,
        !awaits_response(steps),
{
    lemma_install_progress(size, steps, steps.len() as int);
    assert(steps.take(steps.len() as int) =~= steps);
}

/// Once the manager awaits the answer, a reader on the agent's side that is
/// bound to the declared size has its whole payload in the chunks that were
/// sent: it neither waits for another chunk nor leaves one behind.
pub proof fn agent_reader_completes(size: u64, steps: Seq<InstallStep>)
    requires
        is_install_run(size, steps),
        steps.len() > 0,
        steps.last().action is ReceiveResponse,
    ensures
        is_complete(received(fresh_transfer(size as nat), chunk_lens(steps))),
        forall|k: int|
            0 <= k < chunk_lens(steps).len() ==> !is_complete(
                received(fresh_transfer(size as nat), #[trigger] chunk_lens(steps).take(k)),
            ),
{
    lemma_install_progress(size, steps, steps.len() as int);
    assert(steps.take(steps.len() as int) =~= steps);
    exact_payload_completes(size as nat, chunk_lens(steps));
}

/// An install starts by sending its request, for as many bytes as declared.
pub proof fn install_starts_with_its_request(size: u64, r: (InstallState, InstallAction))
    requires
        call_ensures(start_install, (size,), r),
    ensures
        r.0 == (InstallState::Requesting { size }),
        r.1 is SendRequest,
{
}

/// Once the request is sent, the verdict is awaited. A request that could not
/// be sent fails the install with that error.
pub proof fn request_is_followed_by_the_verdict(
    size: u64,
    sent: Result<(), IoError>,
    r: (InstallState, InstallAction),
)
    requires
        call_ensures(
            install_exchange,
            (InstallState::Requesting { size }, InstallEvent::Requested(sent)),
            r,
        ),
    ensures
        sent is Ok ==> r.0 == (InstallState::AwaitingVerdict { size }) && r.1 is ReceiveVerdict,
        sent matches Err(e) ==> r.0 is Finished && r.1 == InstallAction::Finish(
            Err(ApiError::Transport(e)),
        ),
{
}

/// The verdict of the agent decides: only the one to go ahead starts the
/// transfer, with all the bytes still to be sent. A terminal verdict is
/// reported with everything that it says, the agent's refusal with its own
/// text, and a verdict that did not come in with the error of the receive.
pub proof fn verdict_reaches_the_caller(
    size: u64,
    verdict: Result<Result<InstallPreflight, String>, IoError>,
    r: (InstallState, InstallAction),
)
    requires
        call_ensures(
            install_exchange,
            (InstallState::AwaitingVerdict { size }, InstallEvent::Verdict(verdict)),
            r,
        ),
    ensures
        r.1 is Finish <==> r.0 is Finished,
        r.1 is Finish <==> verdict != Ok::<Result<InstallPreflight, String>, IoError>(
            Ok(InstallPreflight::Proceed),
        ),
        verdict matches Ok(Ok(judged)) ==> (judged is Proceed ==> size > 0 ==> r.0 == (
        InstallState::Reading { size, remaining: size })),
        verdict matches Ok(Ok(judged)) ==> (judged is Proceed ==> size == 0 ==> r.0
            is AwaitingResponse && r.1 is ReceiveResponse),
        verdict matches Ok(Ok(judged)) ==> (judged is AlreadyApplied ==> r.1
            == InstallAction::Finish(
            Ok(InstallOutcome::Preflight(TerminalPreflight::AlreadyApplied)),
        )),
        verdict matches Ok(
            Ok(InstallPreflight::InsufficientDiskSpace { filesystem, required, available }),
        ) ==> r.1 == InstallAction::Finish(
            Ok(
                InstallOutcome::Preflight(
                    TerminalPreflight::InsufficientDiskSpace { filesystem, required, available },
                ),
            ),
        ),
        verdict matches Ok(Err(text)) ==> r.1 == InstallAction::Finish(Err(ApiError::Remote(text))),
        verdict matches Err(e) ==> r.1 == InstallAction::Finish(Err(ApiError::Verdict(e))),
{
}

/// While bytes are to be sent, the source is asked for as many as are left,
/// but at most 65536 at a time. When none is left, the answer is awaited.
pub proof fn source_is_asked_for_what_is_left(
    size: u64,
    remaining: u64,
    r: (InstallState, InstallAction),
    after_chunk_sent: (InstallState, InstallAction),
)
    requires
        call_ensures(send_package, (size, remaining), r),
        call_ensures(
            install_exchange,
            (InstallState::Sending { size, remaining }, InstallEvent::ChunkSent(Ok(()))),
            after_chunk_sent,
        ),
    ensures
        after_chunk_sent == r,
        remaining == 0 ==> r.0 is AwaitingResponse && r.1 is ReceiveResponse,
        0 < remaining <= 65536 ==> (r.1 matches InstallAction::Read(want) && want == remaining),
        remaining > 65536 ==> (r.1 matches InstallAction::Read(want) && want == 65536),
        remaining > 0 ==> r.0 == (InstallState::Reading { size, remaining }),
{
}

/// What is read is sent as it is, and taken off what remains. A source that
/// ends early aborts the transfer, naming how many of the declared bytes were
/// sent, and a read that failed aborts it with that error.
pub proof fn what_is_read_is_sent(
    size: u64,
    remaining: u64,
    read: Result<Vec<u8>, IoError>,
    r: (InstallState, InstallAction),
)
    requires
        0 < remaining <= size,
        read matches Ok(chunk) ==> chunk@.len() <= remaining,
        call_ensures(
            install_exchange,
            (InstallState::Reading { size, remaining }, InstallEvent::Read(read)),
            r,
        ),
    ensures
        read matches Ok(chunk) ==> (chunk@.len() > 0 ==> {
            &&& r.1 == InstallAction::SendChunk(chunk)
            &&& r.0 matches InstallState::Sending { size: same, remaining: left }
            &&& same == size
            &&& left + chunk@.len() == remaining
        }),
        read matches Ok(chunk) ==> (chunk@.len() == 0 ==> {
            &&& r.0 is Finished
            &&& r.1 matches InstallAction::Abort(
                code,
                ApiError::SourceEnded { sent, size: declared },
            )
            &&& code == 1
            &&& sent + remaining == size
            &&& declared == size
        }),
        read matches Err(e) ==> r.0 is Finished && r.1 == InstallAction::Abort(
            1,
            ApiError::Source(e),
        ),
{
}

/// A chunk that could not be sent aborts the transfer with that error.
pub proof fn chunk_that_is_not_sent_aborts(
    size: u64,
    remaining: u64,
    e: IoError,
    r: (InstallState, InstallAction),
)
    requires
        call_ensures(
            install_exchange,
            (InstallState::Sending { size, remaining }, InstallEvent::ChunkSent(Err(e))),
            r,
        ),
    ensures
        r.0 is Finished,
        r.1 == InstallAction::Abort(1, ApiError::Transport(e)),
{
}

/// The terminal answer of the agent reaches the caller unchanged, whatever it
/// is: a response as what was applied, and an error text as the agent's. An
/// answer that did not come in fails the install with the error of the
/// receive.
pub proof fn terminal_answer_reaches_the_caller(
    answer: Result<Result<NodePackageResponse, String>, IoError>,
    r: (InstallState, InstallAction),
)
    requires
        call_ensures(
            install_exchange,
            (InstallState::AwaitingResponse, InstallEvent::Response(answer)),
            r,
        ),
    ensures
        r.0 is Finished,
        answer matches Ok(Ok(response)) ==> r.1 == InstallAction::Finish(
            Ok(InstallOutcome::Applied(response)),
        ),
        answer matches Ok(Err(text)) ==> r.1 == InstallAction::Finish(Err(ApiError::Remote(text))),
        answer matches Err(e) ==> r.1 == InstallAction::Finish(Err(ApiError::Response(e))),
{
}

/// The steps of the install exchange make up its runs.
pub proof fn exchange_takes_steps(s: InstallStep)
    requires
        call_ensures(install_exchange, (s.pre, s.event), (s.post, s.action)),
    ensures
        install_transition(s.pre, s.event, s.post, s.action),
{
}

/// In a run of an install, what is reported as applied is what the agent
/// answered last, and every answer of the agent that is a response is
/// reported so.
pub proof fn applied_is_what_the_agent_answered(
    size: u64,
    steps: Seq<InstallStep>,
    response: NodePackageResponse,
)
    requires
        is_install_run(size, steps),
        steps.len() > 0,
    ensures
        steps.last().action == InstallAction::Finish(Ok(InstallOutcome::Applied(response)))
            <==> steps.last().event == InstallEvent::Response(Ok(Ok(response))),
{
    let s = steps[steps.len() - 1];
    assert(install_accepts(s.pre, s.event) && install_transition(
        s.pre,
        s.event,
        s.post,
        s.action,
    ));
}

/// In a run of an install, a source that ends early is reported with the
/// number of bytes that were sent until then and with the declared size.
pub proof fn early_end_is_reported_with_what_was_sent(
    size: u64,
    steps: Seq<InstallStep>,
    sent: u64,
    declared: u64,
)
    requires
        is_install_run(size, steps),
        steps.len() > 0,
        steps.last().action matches InstallAction::Abort(_, e) && e == (ApiError::SourceEnded {
            sent,
            size: declared,
        }),
    ensures
        sent == bytes_sent(steps).len(),
        declared == size,
        sent < size,
{
    let n = steps.len() as int;
    let s = steps[n - 1];
    assert(install_accepts(s.pre, s.event) && install_transition(
        s.pre,
        s.event,
        s.post,
        s.action,
    ));
    assert(steps.drop_last() =~= steps.take(n - 1));
    assert(n > 1);
    lemma_install_progress(size, steps, n - 1);
    assert(s.pre == steps[n - 2].post);
}

/// Whether `event` is what comes of doing `action`. A read yields no more than
/// was asked for.
pub open spec fn is_install_outcome(action: InstallAction, event: InstallEvent) -> bool {
    match action {
        InstallAction::SendRequest => event is Requested,
        InstallAction::ReceiveVerdict => event is Verdict,
        InstallAction::Read(want) => event matches InstallEvent::Read(read) && (read matches Ok(
            chunk,
        ) ==> chunk@.len() <= want),
        InstallAction::SendChunk(_) => event is ChunkSent,
        InstallAction::ReceiveResponse => event is Response,
        InstallAction::Abort(_, _) | InstallAction::Finish(_) => false,
    }
}

/// At the start of an install and after any step of a run of it, exactly the
/// outcomes of what is to be done are taken.
pub proof fn exactly_the_install_outcomes_are_taken(
    size: u64,
    first: (InstallState, InstallAction),
    steps: Seq<InstallStep>,
    event: InstallEvent,
    taken_first: bool,
    taken: bool,
)
    requires
        call_ensures(start_install, (size,), first),
        call_ensures(install_fits, (&first.0, &event), taken_first),
        is_install_run(size, steps),
        steps.len() > 0,
        call_ensures(install_fits, (&steps.last().post, &event), taken),
    ensures
        taken_first <==> is_install_outcome(first.1, event),
        taken <==> is_install_outcome(steps.last().action, event),
        taken <==> install_accepts(steps.last().post, event),
{
    let n = steps.len() as int;
    let s = steps[n - 1];
    assert(install_accepts(s.pre, s.event) && install_transition(
        s.pre,
        s.event,
        s.post,
        s.action,
    ));
    lemma_install_progress(size, steps, n);
}

} // verus!
