//! The streaming state machine of one request: it decides, per observed
//! input, what is written to the client and when the session is signaled
//! to terminate. The surrounding process performs the writes and the
//! signal and feeds the next input back in.

use vstd::prelude::*;
use crate::protocol::FetchOutcome;
use crate::sse::{SseFrame, spec_frame_of, spec_frames_of, spec_outcome_terminal, next_frame};

verus! {

/// The per-request streaming state: whether the stream is closed (a
/// terminal frame was emitted, or the disconnect was observed) and whether
/// the session was signaled to terminate.
#[derive(Clone, Copy, Debug, PartialEq, Eq, Structural)]
pub struct StreamState {
    pub closed: bool,
    pub signaled: bool,
}

/// What the endpoint observes while streaming: the outcome of fetching the
/// next event, or the client's disconnect.
#[derive(Clone, Debug)]
pub enum StreamInput {
    Fetched(FetchOutcome),
    Disconnected,
}

/// What the endpoint must do after one streaming step.
#[derive(Clone, Debug)]
pub enum StreamAction {
    /// Write the frame to the client; `last` says the stream then closes.
    Emit { frame: SseFrame, last: bool },
    /// Signal the session to terminate; write nothing further.
    SignalTerminate,
    /// The stream is already closed: do nothing.
    Nothing,
}

pub open spec fn spec_initial_stream_state() -> StreamState {
    StreamState { closed: false, signaled: false }
}

/// The state a stream is in when it opens.
pub fn initial_stream_state() -> (r: StreamState)
    ensures
        r == spec_initial_stream_state(),
{
    StreamState { closed: false, signaled: false }
}

/// One step of the streaming loop. A closed stream does nothing. An open
/// stream emits one frame per fetch outcome and closes on the first
/// terminal one; on a disconnect it closes without emitting and signals
/// the session to terminate.
pub open spec fn spec_stream_step(state: StreamState, input: StreamInput) -> (StreamState, StreamAction) {
    if state.closed {
        (state, StreamAction::Nothing)
    } else {
        match input {
            StreamInput::Fetched(o) => (
                StreamState { closed: spec_outcome_terminal(o), signaled: state.signaled },
                StreamAction::Emit { frame: spec_frame_of(o), last: spec_outcome_terminal(o) },
            ),
            StreamInput::Disconnected => (
                StreamState { closed: true, signaled: true },
                StreamAction::SignalTerminate,
            ),
        }
    }
}

pub fn stream_step(state: StreamState, input: StreamInput) -> (r: (StreamState, StreamAction))
    ensures
        r == spec_stream_step(state, input),
{
    if state.closed {
        (state, StreamAction::Nothing)
    } else {
        match input {
            StreamInput::Fetched(o) => {
                let (frame, last) = next_frame(o);
                (
                    StreamState { closed: last, signaled: state.signaled },
                    StreamAction::Emit { frame, last },
                )
            },
            StreamInput::Disconnected => (
                StreamState { closed: true, signaled: true },
                StreamAction::SignalTerminate,
            ),
        }
    }
}

/// The state after feeding `inputs`, one by one.
pub open spec fn spec_stream_state_after(state: StreamState, inputs: Seq<StreamInput>) -> StreamState
    decreases inputs.len(),
{
    if inputs.len() == 0 {
        state
    } else {
        spec_stream_state_after(spec_stream_step(state, inputs[0]).0, inputs.drop_first())
    }
}

/// The actions taken on feeding `inputs`, one by one.
pub open spec fn spec_stream_run(state: StreamState, inputs: Seq<StreamInput>) -> Seq<StreamAction>
    decreases inputs.len(),
{
    if inputs.len() == 0 {
        Seq::empty()
    } else {
        seq![spec_stream_step(state, inputs[0]).1] + spec_stream_run(
            spec_stream_step(state, inputs[0]).0,
            inputs.drop_first(),
        )
    }
}

/// How often a run signals the session to terminate.
pub open spec fn spec_signal_count(actions: Seq<StreamAction>) -> nat
    decreases actions.len(),
{
    if actions.len() == 0 {
        0
    } else {
        (if actions[0] is SignalTerminate {
            1nat
        } else {
            0nat
        }) + spec_signal_count(actions.drop_first())
    }
}

proof fn lemma_run_len(state: StreamState, inputs: Seq<StreamInput>)
    ensures
        spec_stream_run(state, inputs).len() == inputs.len(),
    decreases inputs.len(),
{
    if inputs.len() > 0 {
        lemma_run_len(spec_stream_step(state, inputs[0]).0, inputs.drop_first());
    }
}

/// The frames written by a sequence of actions, in order.
pub open spec fn spec_emitted_frames(actions: Seq<StreamAction>) -> Seq<SseFrame>
    decreases actions.len(),
{
    if actions.len() == 0 {
        Seq::empty()
    } else {
        (match actions[0] {
            StreamAction::Emit { frame, .. } => seq![frame],
            _ => Seq::<SseFrame>::empty(),
        }) + spec_emitted_frames(actions.drop_first())
    }
}

/// A closed stream stays closed: it neither emits a frame nor signals the
/// session, whatever arrives.
proof fn lemma_closed_run_silent(state: StreamState, inputs: Seq<StreamInput>)
    requires
        state.closed,
    ensures
        spec_signal_count(spec_stream_run(state, inputs)) == 0,
        forall|j: int|
            0 <= j < spec_stream_run(state, inputs).len() ==> !(spec_stream_run(state, inputs)[j] is Emit),
        spec_emitted_frames(spec_stream_run(state, inputs)) == Seq::<SseFrame>::empty(),
        spec_stream_state_after(state, inputs) == state,
    decreases inputs.len(),
{
    if inputs.len() > 0 {
        lemma_closed_run_silent(state, inputs.drop_first());
        assert(spec_stream_run(state, inputs).drop_first() =~= spec_stream_run(
            state,
            inputs.drop_first(),
        ));
        assert forall|j: int| 0 <= j < spec_stream_run(state, inputs).len() implies !(
        spec_stream_run(state, inputs)[j] is Emit) by {
            if j > 0 {
                assert(spec_stream_run(state, inputs)[j] == spec_stream_run(
                    state,
                    inputs.drop_first(),
                )[j - 1]);
            }
        }
        assert(spec_emitted_frames(spec_stream_run(state, inputs)) =~= Seq::<SseFrame>::empty());
    }
}

/// The streaming inputs for a sequence of fetch outcomes, one each.
pub open spec fn spec_fetched_inputs(events: Seq<FetchOutcome>) -> Seq<StreamInput> {
    events.map_values(|o: FetchOutcome| StreamInput::Fetched(o))
}

proof fn lemma_open_run_emits_frames_of(state: StreamState, events: Seq<FetchOutcome>)
    requires
        !state.closed,
    ensures
        spec_emitted_frames(spec_stream_run(state, spec_fetched_inputs(events)))
            == spec_frames_of(events),
    decreases events.len(),
{
    let inputs = spec_fetched_inputs(events);
    if events.len() == 0 {
        assert(inputs.len() == 0);
        assert(spec_emitted_frames(spec_stream_run(state, inputs)) =~= spec_frames_of(events));
    } else {
        assert(inputs[0] == StreamInput::Fetched(events[0]));
        let next = spec_stream_step(state, inputs[0]).0;
        assert(inputs.drop_first() =~= spec_fetched_inputs(events.drop_first()));
        assert(spec_stream_run(state, inputs).drop_first() =~= spec_stream_run(
            next,
            inputs.drop_first(),
        ));
        if spec_outcome_terminal(events[0]) {
            assert(next.closed);
            lemma_closed_run_silent(next, inputs.drop_first());
            assert(spec_emitted_frames(spec_stream_run(state, inputs)) =~= seq![
                spec_frame_of(events[0]),
            ]);
            assert(spec_frames_of(events) =~= seq![spec_frame_of(events[0])]);
        } else {
            lemma_open_run_emits_frames_of(next, events.drop_first());
            assert(spec_emitted_frames(spec_stream_run(state, inputs)) =~= seq![
                spec_frame_of(events[0]),
            ] + spec_frames_of(events.drop_first()));
        }
    }
}

/// Law: fed the fetch outcomes one by one from the initial state, the
/// streaming machine writes exactly the frames of the arrival sequence:
/// the incremental loop agrees with the batch translation, frame for
/// frame and in order.
pub proof fn lemma_stream_run_emits_frames_of(events: Seq<FetchOutcome>)
    ensures
        spec_emitted_frames(spec_stream_run(spec_initial_stream_state(), spec_fetched_inputs(events)))
            == spec_frames_of(events),
{
    lemma_open_run_emits_frames_of(spec_initial_stream_state(), events);
}

/// Law: over any run, from any state, the session is signaled to
/// terminate at most once; a run from a state that already signaled never
/// signals again.
pub proof fn lemma_at_most_one_signal(state: StreamState, inputs: Seq<StreamInput>)
    ensures
        spec_signal_count(spec_stream_run(state, inputs)) <= 1,
        state.closed ==> spec_signal_count(spec_stream_run(state, inputs)) == 0,
    decreases inputs.len(),
{
    if inputs.len() == 0 {
    } else if state.closed {
        lemma_closed_run_silent(state, inputs);
    } else {
        let next = spec_stream_step(state, inputs[0]).0;
        lemma_at_most_one_signal(next, inputs.drop_first());
        assert(spec_stream_run(state, inputs).drop_first() =~= spec_stream_run(
            next,
            inputs.drop_first(),
        ));
        match inputs[0] {
            StreamInput::Fetched(_) => {},
            StreamInput::Disconnected => {
                lemma_closed_run_silent(next, inputs.drop_first());
            },
        }
    }
}

/// Law: once a disconnect is observed, no frame is emitted afterwards, and
/// over the whole run the session is signaled to terminate at most once.
pub proof fn lemma_disconnect_stops_stream(state: StreamState, inputs: Seq<StreamInput>, k: int)
    requires
        0 <= k < inputs.len(),
        inputs[k] is Disconnected,
    ensures
        spec_stream_run(state, inputs).len() == inputs.len(),
        forall|j: int|
            k < j < inputs.len() ==> !(spec_stream_run(state, inputs)[j] is Emit),
        spec_signal_count(spec_stream_run(state, inputs)) <= 1,
        spec_stream_state_after(state, inputs).closed,
    decreases inputs.len(),
{
    lemma_run_len(state, inputs);
    lemma_at_most_one_signal(state, inputs);
    let next = spec_stream_step(state, inputs[0]).0;
    assert(spec_stream_run(state, inputs).drop_first() =~= spec_stream_run(
        next,
        inputs.drop_first(),
    ));
    if k == 0 {
        // After the disconnect (or on a closed stream) the next state is
        // closed, and a closed stream emits nothing.
        assert(next.closed);
        lemma_closed_run_silent(next, inputs.drop_first());
        lemma_run_len(next, inputs.drop_first());
        assert forall|j: int| k < j < inputs.len() implies !(spec_stream_run(state, inputs)[j] is Emit) by {
            assert(spec_stream_run(state, inputs)[j] == spec_stream_run(
                next,
                inputs.drop_first(),
            )[j - 1]);
        }
    } else {
        assert(inputs.drop_first()[k - 1] == inputs[k]);
        lemma_disconnect_stops_stream(next, inputs.drop_first(), k - 1);
        assert forall|j: int| k < j < inputs.len() implies !(spec_stream_run(state, inputs)[j] is Emit) by {
            assert(spec_stream_run(state, inputs)[j] == spec_stream_run(
                next,
                inputs.drop_first(),
            )[j - 1]);
        }
    }
}

} // verus!
