//! The request body, the operations submitted into a session, and the
//! events a session produces, as the gateway's control flow sees them.

use vstd::prelude::*;

verus! {

/// Body of a request to the responses endpoint. Only `input` drives the
/// gateway; the remaining fields are accepted for API compatibility.
#[derive(Clone, Debug)]
pub struct ResponsesApiRequest {
    pub input: String,
    pub previous_response_id: Option<String>,
    pub instructions: Option<String>,
    pub store: Option<bool>,
}

/// One item of user input carried by an operation.
#[derive(Clone, Debug)]
pub enum InputItem {
    Text { text: String },
}

/// An instruction submitted into a session.
#[derive(Clone, Debug)]
pub enum Op {
    UserInput { items: Vec<InputItem> },
}

/// The tag of an agent event. `TaskComplete` and `Error` are terminal;
/// every other event is progress whose payload is opaque to the gateway.
#[derive(Clone, Copy, Debug, PartialEq, Eq, Structural)]
pub enum EventTag {
    TaskComplete,
    Error,
    Progress,
}

/// One event received from a session: its control-flow tag and its
/// serialized form, forwarded verbatim.
#[derive(Clone, Debug)]
pub struct AgentEvent {
    pub tag: EventTag,
    pub payload: String,
}

/// What one attempt to fetch the next event yielded: an event, or a
/// transport failure carrying its description.
#[derive(Clone, Debug)]
pub enum FetchOutcome {
    Event(AgentEvent),
    Failure(String),
}

/// Why launching a session failed; fatal to the request.
#[derive(Clone, Copy, Debug, PartialEq, Eq, Structural)]
pub enum LaunchError {
    /// The engine refused to start a session.
    SpawnFailed,
    /// The session started but the initial operation was not accepted;
    /// the session is abandoned, not reused.
    SubmitFailed,
}

pub open spec fn spec_event_terminal(e: AgentEvent) -> bool {
    e.tag is TaskComplete || e.tag is Error
}

/// A terminal event ends the stream: `TaskComplete` and `Error` do,
/// progress events do not.
pub fn event_terminal(e: &AgentEvent) -> (r: bool)
    ensures
        r == spec_event_terminal(*e),
{
    match e.tag {
        EventTag::TaskComplete => true,
        EventTag::Error => true,
        EventTag::Progress => false,
    }
}

/// The first and only operation of a request's session: one user-input
/// item carrying the request's input text.
pub fn initial_op(input: String) -> (r: Op)
    ensures
        r matches Op::UserInput { items } && ({
            &&& items@.len() == 1
            &&& items@[0] matches InputItem::Text { text } && text == input
        }),
{
    let mut items: Vec<InputItem> = Vec::new();
    items.push(InputItem::Text { text: input });
    Op::UserInput { items }
}

/// Classify the two independently fallible launch steps: a spawn failure
/// aborts before any session exists; a submit failure abandons the
/// session that was started. Launching succeeds iff both steps did.
pub fn classify_launch(spawn_ok: bool, submit_ok: bool) -> (r: Result<(), LaunchError>)
    ensures
        r is Ok <==> (spawn_ok && submit_ok),
        !spawn_ok ==> r == Err::<(), LaunchError>(LaunchError::SpawnFailed),
        (spawn_ok && !submit_ok) ==> r == Err::<(), LaunchError>(LaunchError::SubmitFailed),
{
    if !spawn_ok {
        Err(LaunchError::SpawnFailed)
    } else if !submit_ok {
        Err(LaunchError::SubmitFailed)
    } else {
        Ok(())
    }
}

} // verus!
