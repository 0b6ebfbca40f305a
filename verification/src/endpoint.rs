//! The endpoint state machine of one request: it sequences body parsing,
//! configuration resolution, the session launch and the stream, and
//! decides the response. The surrounding process performs each requested
//! action and feeds the outcome back in.

use vstd::prelude::*;
use crate::config::{ConfigError, EnvOverrides, FileLoad, ResolvedConfig, resolve};
use crate::protocol::{FetchOutcome, LaunchError, ResponsesApiRequest};
use crate::sse::{SseFrame, drain_frames, spec_frames_of};
use crate::stream::{StreamState, spec_initial_stream_state};

verus! {

pub const STATUS_OK: u16 = 200;

pub const STATUS_BAD_REQUEST: u16 = 400;

pub const STATUS_INTERNAL_SERVER_ERROR: u16 = 500;

/// Outcome of parsing the request body.
#[derive(Clone, Debug)]
pub enum BodyParse {
    Parsed(ResponsesApiRequest),
    Malformed,
}

/// The phase one request is in.
#[derive(Clone, Debug)]
pub enum EndpointPhase {
    /// Waiting for the outcome of parsing the body.
    Parsing,
    /// Waiting for the resolved configuration; carries the request's input.
    Resolving { input: String },
    /// Waiting for the launch outcome.
    Launching,
    /// The SSE stream is open and the streaming state machine runs.
    Streaming { stream: StreamState },
    /// The response is finished; nothing further happens.
    Closed,
}

/// What outside work the endpoint asks for after one step.
#[derive(Clone, Debug)]
pub enum EndpointAction {
    /// Load the on-disk configuration, read the environment overrides and
    /// the working directory, and resolve the configuration.
    ResolveConfig,
    /// Start a session from this configuration and submit one user-input
    /// operation carrying this input text.
    Launch { config: ResolvedConfig, input: String },
    /// Respond with an SSE stream and start fetching events.
    OpenStream,
    /// Respond with this status and an empty body.
    RespondStatus { status: u16 },
    /// The event does not belong to this phase: do nothing.
    Ignore,
}

/// What the endpoint observes.
#[derive(Debug)]
pub enum EndpointEvent {
    Body(BodyParse),
    Resolved(Result<ResolvedConfig, ConfigError>),
    Launched(Result<(), LaunchError>),
}

/// One step of the endpoint: a malformed body is rejected with a client
/// error before any configuration or session work; a resolution or launch
/// failure closes the request with status 500 and an empty body; a
/// successful launch opens the stream; a closed request ignores
/// everything, as does an event that does not belong to the phase.
pub open spec fn spec_endpoint_step(phase: EndpointPhase, event: EndpointEvent) -> (
    EndpointPhase,
    EndpointAction,
) {
    match (phase, event) {
        (EndpointPhase::Parsing, EndpointEvent::Body(BodyParse::Parsed(req))) => (
            EndpointPhase::Resolving { input: req.input },
            EndpointAction::ResolveConfig,
        ),
        (EndpointPhase::Parsing, EndpointEvent::Body(BodyParse::Malformed)) => (
            EndpointPhase::Closed,
            EndpointAction::RespondStatus { status: STATUS_BAD_REQUEST },
        ),
        (EndpointPhase::Resolving { input }, EndpointEvent::Resolved(Ok(config))) => (
            EndpointPhase::Launching,
            EndpointAction::Launch { config, input },
        ),
        (EndpointPhase::Resolving { input }, EndpointEvent::Resolved(Err(_))) => (
            EndpointPhase::Closed,
            EndpointAction::RespondStatus { status: STATUS_INTERNAL_SERVER_ERROR },
        ),
        (EndpointPhase::Launching, EndpointEvent::Launched(Ok(_))) => (
            EndpointPhase::Streaming { stream: spec_initial_stream_state() },
            EndpointAction::OpenStream,
        ),
        (EndpointPhase::Launching, EndpointEvent::Launched(Err(_))) => (
            EndpointPhase::Closed,
            EndpointAction::RespondStatus { status: STATUS_INTERNAL_SERVER_ERROR },
        ),
        (p, _) => (p, EndpointAction::Ignore),
    }
}

pub fn endpoint_step(phase: EndpointPhase, event: EndpointEvent) -> (r: (
    EndpointPhase,
    EndpointAction,
))
    ensures
        r == spec_endpoint_step(phase, event),
{
    match (phase, event) {
        (EndpointPhase::Parsing, EndpointEvent::Body(BodyParse::Parsed(req))) => (
            EndpointPhase::Resolving { input: req.input },
            EndpointAction::ResolveConfig,
        ),
        (EndpointPhase::Parsing, EndpointEvent::Body(BodyParse::Malformed)) => (
            EndpointPhase::Closed,
            EndpointAction::RespondStatus { status: STATUS_BAD_REQUEST },
        ),
        (EndpointPhase::Resolving { input }, EndpointEvent::Resolved(Ok(config))) => (
            EndpointPhase::Launching,
            EndpointAction::Launch { config, input },
        ),
        (EndpointPhase::Resolving { input: _ }, EndpointEvent::Resolved(Err(_))) => (
            EndpointPhase::Closed,
            EndpointAction::RespondStatus { status: STATUS_INTERNAL_SERVER_ERROR },
        ),
        (EndpointPhase::Launching, EndpointEvent::Launched(Ok(_))) => (
            EndpointPhase::Streaming { stream: crate::stream::initial_stream_state() },
            EndpointAction::OpenStream,
        ),
        (EndpointPhase::Launching, EndpointEvent::Launched(Err(_))) => (
            EndpointPhase::Closed,
            EndpointAction::RespondStatus { status: STATUS_INTERNAL_SERVER_ERROR },
        ),
        (p, _) => (p, EndpointAction::Ignore),
    }
}

/// The phase after feeding `events`, one by one.
pub open spec fn spec_endpoint_state_after(phase: EndpointPhase, events: Seq<EndpointEvent>) -> EndpointPhase
    decreases events.len(),
{
    if events.len() == 0 {
        phase
    } else {
        spec_endpoint_state_after(spec_endpoint_step(phase, events[0]).0, events.drop_first())
    }
}

/// The actions taken on feeding `events`, one by one.
pub open spec fn spec_endpoint_run(phase: EndpointPhase, events: Seq<EndpointEvent>) -> Seq<
    EndpointAction,
>
    decreases events.len(),
{
    if events.len() == 0 {
        Seq::empty()
    } else {
        seq![spec_endpoint_step(phase, events[0]).1] + spec_endpoint_run(
            spec_endpoint_step(phase, events[0]).0,
            events.drop_first(),
        )
    }
}

pub open spec fn spec_launch_succeeded(e: EndpointEvent) -> bool {
    match e {
        EndpointEvent::Launched(r) => r is Ok,
        _ => false,
    }
}

/// Law: a closed request stays closed and takes no further action.
pub proof fn lemma_closed_stays_closed(events: Seq<EndpointEvent>)
    ensures
        spec_endpoint_run(EndpointPhase::Closed, events).len() == events.len(),
        forall|j: int|
            0 <= j < events.len() ==> spec_endpoint_run(EndpointPhase::Closed, events)[j]
                is Ignore,
        spec_endpoint_state_after(EndpointPhase::Closed, events) is Closed,
    decreases events.len(),
{
    if events.len() > 0 {
        lemma_closed_stays_closed(events.drop_first());
        assert forall|j: int| 0 <= j < events.len() implies spec_endpoint_run(
            EndpointPhase::Closed,
            events,
        )[j] is Ignore by {
            if j > 0 {
                assert(spec_endpoint_run(EndpointPhase::Closed, events)[j] == spec_endpoint_run(
                    EndpointPhase::Closed,
                    events.drop_first(),
                )[j - 1]);
            }
        }
    }
}

/// Law: the stream opens only after a successful launch. A run whose
/// events hold no successful launch outcome never asks to open the
/// stream, whatever else happens: in particular, a session-spawn failure
/// never lets an SSE frame be emitted.
pub proof fn lemma_no_stream_without_launch(phase: EndpointPhase, events: Seq<EndpointEvent>)
    requires
        forall|i: int| 0 <= i < events.len() ==> !spec_launch_succeeded(events[i]),
    ensures
        spec_endpoint_run(phase, events).len() == events.len(),
        forall|j: int| 0 <= j < events.len() ==> !(spec_endpoint_run(phase, events)[j] is OpenStream),
    decreases events.len(),
{
    if events.len() > 0 {
        assert(!spec_launch_succeeded(events[0]));
        let next = spec_endpoint_step(phase, events[0]).0;
        assert(forall|i: int|
            0 <= i < events.drop_first().len() ==> events.drop_first()[i] == events[i + 1]
                && !spec_launch_succeeded(events[i + 1]));
        lemma_no_stream_without_launch(next, events.drop_first());
        assert(!(spec_endpoint_step(phase, events[0]).1 is OpenStream));
        assert forall|j: int| 0 <= j < events.len() implies !(spec_endpoint_run(phase, events)[j]
            is OpenStream) by {
            if j > 0 {
                assert(spec_endpoint_run(phase, events)[j] == spec_endpoint_run(
                    next,
                    events.drop_first(),
                )[j - 1]);
            }
        }
    }
}

/// Law: a malformed body is answered with the client-error status at once,
/// and the request is closed: no configuration is resolved, no session is
/// launched and no stream is opened afterwards.
pub proof fn lemma_malformed_body_rejected_early(events: Seq<EndpointEvent>)
    requires
        events.len() > 0,
        events[0] == EndpointEvent::Body(BodyParse::Malformed),
    ensures
        spec_endpoint_run(EndpointPhase::Parsing, events).len() == events.len(),
        spec_endpoint_run(EndpointPhase::Parsing, events)[0] == (EndpointAction::RespondStatus {
            status: STATUS_BAD_REQUEST,
        }),
        forall|j: int|
            1 <= j < events.len() ==> spec_endpoint_run(EndpointPhase::Parsing, events)[j]
                is Ignore,
{
    lemma_closed_stays_closed(events.drop_first());
    assert forall|j: int| 1 <= j < events.len() implies spec_endpoint_run(
        EndpointPhase::Parsing,
        events,
    )[j] is Ignore by {
        assert(spec_endpoint_run(EndpointPhase::Parsing, events)[j] == spec_endpoint_run(
            EndpointPhase::Closed,
            events.drop_first(),
        )[j - 1]);
    }
}

/// The response to one request: a bare status with an empty body, or an
/// SSE stream of frames in emission order.
#[derive(Debug)]
pub enum HttpResponse {
    Status(u16),
    Stream(Vec<SseFrame>),
}

/// One whole request, as a function of what the outside world yields: the
/// parse outcome, the on-disk configuration, the environment overrides,
/// the working directory, the launch outcome, and the fetch outcomes the
/// session produces. A malformed body is rejected with a client error and
/// nothing else happens; a resolution or launch failure yields status 500
/// with an empty body and no frame; otherwise the frames for the arrivals
/// are streamed in order up to and including the first terminal one.
pub fn handle_request(
    body: BodyParse,
    file: FileLoad,
    env: EnvOverrides,
    cwd: Option<String>,
    launch: Result<(), LaunchError>,
    events: Vec<FetchOutcome>,
) -> (r: HttpResponse)
    ensures
        body is Malformed ==> r == HttpResponse::Status(STATUS_BAD_REQUEST),
        (body is Parsed && (file is Malformed || cwd is None)) ==> r == HttpResponse::Status(
            STATUS_INTERNAL_SERVER_ERROR,
        ),
        (body is Parsed && !(file is Malformed || cwd is None) && launch is Err) ==> r
            == HttpResponse::Status(STATUS_INTERNAL_SERVER_ERROR),
        (body is Parsed && !(file is Malformed || cwd is None) && launch is Ok) ==> (r matches
        HttpResponse::Stream(frames) && frames@ == spec_frames_of(events@)),
{
    match body {
        BodyParse::Parsed(_) => {},
        BodyParse::Malformed => {
            return HttpResponse::Status(STATUS_BAD_REQUEST);
        },
    }
    // The resolved configuration, with the request's input, is what the
    // session launch consumes; the launch's outcome arrives as `launch`.
    match resolve(file, env, cwd) {
        Ok(_) => {},
        Err(_) => {
            return HttpResponse::Status(STATUS_INTERNAL_SERVER_ERROR);
        },
    }
    match launch {
        Ok(_) => HttpResponse::Stream(drain_frames(events)),
        Err(_) => HttpResponse::Status(STATUS_INTERNAL_SERVER_ERROR),
    }
}

/// The fixed body of the health endpoint's response.
pub fn health_body() -> (r: String)
    ensures
        r@ == "{\"status\":\"healthy\",\"service\":\"codex-http-server\"}"@,
{
    "{\"status\":\"healthy\",\"service\":\"codex-http-server\"}".to_owned()
}

} // verus!
