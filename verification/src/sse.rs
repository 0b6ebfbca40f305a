//! Event translation: each fetch outcome becomes one SSE frame, in arrival
//! order, and the first terminal outcome ends the stream.

use vstd::prelude::*;
use crate::protocol::{FetchOutcome, spec_event_terminal, event_terminal};
use crate::text::{json_string, spec_json_string};

verus! {

/// The label of an SSE frame: ordinary data or an in-band error.
#[derive(Clone, Copy, Debug, PartialEq, Eq, Structural)]
pub enum FrameLabel {
    Data,
    Error,
}

/// One Server-Sent-Events frame: a label and a payload. A data frame's
/// payload is the event's serialized form, forwarded verbatim; an error
/// frame's payload is the fetch-failure description.
#[derive(Clone, Debug)]
pub struct SseFrame {
    pub label: FrameLabel,
    pub payload: String,
}

/// Whether one fetch outcome ends the stream: a terminal event does, and a
/// fetch failure always does.
pub open spec fn spec_outcome_terminal(o: FetchOutcome) -> bool {
    match o {
        FetchOutcome::Event(e) => spec_event_terminal(e),
        FetchOutcome::Failure(_) => true,
    }
}

/// The frame emitted for one fetch outcome.
pub open spec fn spec_frame_of(o: FetchOutcome) -> SseFrame {
    match o {
        FetchOutcome::Event(e) => SseFrame { label: FrameLabel::Data, payload: e.payload },
        FetchOutcome::Failure(desc) => SseFrame { label: FrameLabel::Error, payload: desc },
    }
}

/// Translate one fetch outcome into its frame and the decision whether the
/// stream terminates: an event becomes a `data` frame, terminal exactly
/// when the event's tag is terminal; a delivery failure becomes an `error`
/// frame and is terminal unconditionally.
pub fn next_frame(o: FetchOutcome) -> (r: (SseFrame, bool))
    ensures
        r.0 == spec_frame_of(o),
        r.1 == spec_outcome_terminal(o),
{
    match o {
        FetchOutcome::Event(e) => {
            let terminal = event_terminal(&e);
            (SseFrame { label: FrameLabel::Data, payload: e.payload }, terminal)
        },
        FetchOutcome::Failure(desc) => (
            SseFrame { label: FrameLabel::Error, payload: desc },
            true,
        ),
    }
}

pub open spec fn spec_label_text(label: FrameLabel) -> Seq<char> {
    match label {
        FrameLabel::Data => "data"@,
        FrameLabel::Error => "error"@,
    }
}

/// The body of the JSON object carried by an error frame: it wraps the
/// failure description.
pub open spec fn spec_error_body(desc: Seq<char>) -> Seq<char> {
    "{\"error\":"@ + spec_json_string(desc) + "}"@
}

pub fn error_body(desc: &str) -> (r: String)
    ensures
        r@ == spec_error_body(desc@),
{
    let mut out = "{\"error\":".to_owned();
    let quoted = json_string(desc);
    out.append(quoted.as_str());
    out.append("}");
    proof {
        assert(out@ =~= spec_error_body(desc@));
    }
    out
}

/// The JSON object carried by one frame on the wire: its label and its
/// payload. A data frame's payload, already serialized, is inserted
/// verbatim; an error frame's payload is wrapped as an error body.
pub open spec fn spec_frame_json(f: SseFrame) -> Seq<char> {
    "{\"event\":\""@ + spec_label_text(f.label) + "\",\"data\":"@ + (match f.label {
        FrameLabel::Data => f.payload@,
        FrameLabel::Error => spec_error_body(f.payload@),
    }) + "}"@
}

pub fn frame_json(f: &SseFrame) -> (r: String)
    ensures
        r@ == spec_frame_json(*f),
{
    let mut out = "{\"event\":\"".to_owned();
    match f.label {
        FrameLabel::Data => out.append("data"),
        FrameLabel::Error => out.append("error"),
    }
    out.append("\",\"data\":");
    match f.label {
        FrameLabel::Data => out.append(f.payload.as_str()),
        FrameLabel::Error => {
            let body = error_body(f.payload.as_str());
            out.append(body.as_str());
        },
    }
    out.append("}");
    proof {
        assert(out@ =~= spec_frame_json(*f));
    }
    out
}

/// One SSE record on the wire: a `data:` line carrying the frame's JSON,
/// ended by a blank line.
pub open spec fn spec_sse_record(f: SseFrame) -> Seq<char> {
    "data: "@ + spec_frame_json(f) + "\n\n"@
}

pub fn sse_record(f: &SseFrame) -> (r: String)
    ensures
        r@ == spec_sse_record(*f),
{
    let mut out = "data: ".to_owned();
    let json = frame_json(f);
    out.append(json.as_str());
    out.append("\n\n");
    proof {
        assert(out@ =~= spec_sse_record(*f));
    }
    out
}

/// The frames emitted for an arrival sequence: one frame per outcome, in
/// arrival order, up to and including the first terminal outcome; nothing
/// after it.
pub open spec fn spec_frames_of(events: Seq<FetchOutcome>) -> Seq<SseFrame>
    decreases events.len(),
{
    if events.len() == 0 {
        Seq::empty()
    } else if spec_outcome_terminal(events[0]) {
        seq![spec_frame_of(events[0])]
    } else {
        seq![spec_frame_of(events[0])] + spec_frames_of(events.drop_first())
    }
}

/// Translate a whole arrival sequence: one frame per outcome in arrival
/// order, stopping after the first terminal outcome.
pub fn drain_frames(events: Vec<FetchOutcome>) -> (frames: Vec<SseFrame>)
    ensures
        frames@ == spec_frames_of(events@),
{
    let ghost all = events@;
    let mut rest = events;
    let mut frames: Vec<SseFrame> = Vec::new();
    let mut done = false;
    while !done && rest.len() > 0
        invariant
            !done ==> spec_frames_of(all) == frames@ + spec_frames_of(rest@),
            done ==> frames@ == spec_frames_of(all),
        decreases rest.len(),
    {
        let ghost rest_before = rest@;
        let o = rest.remove(0);
        proof {
            assert(spec_frames_of(all) == frames@ + spec_frames_of(rest_before));
            assert(rest_before[0] == o);
            assert(rest_before.drop_first() =~= rest@);
        }
        let ghost frames_before = frames@;
        let (frame, terminal) = next_frame(o);
        frames.push(frame);
        proof {
            assert(frames@ =~= frames_before + seq![spec_frame_of(o)]);
            if spec_outcome_terminal(o) {
                assert(spec_frames_of(all) == frames_before + seq![spec_frame_of(o)]);
            } else {
                assert(frames_before + (seq![spec_frame_of(o)] + spec_frames_of(rest@)) =~= (
                frames_before + seq![spec_frame_of(o)]) + spec_frames_of(rest@));
            }
        }
        if terminal {
            done = true;
        }
    }
    proof {
        if !done {
            assert(rest@.len() == 0);
            assert(spec_frames_of(rest@) =~= Seq::<SseFrame>::empty());
            assert(frames@ + spec_frames_of(rest@) =~= frames@);
        }
    }
    frames
}

/// Law: frames are emitted strictly in arrival order, one per arrival and
/// none invented: the i-th emitted frame is the frame of the i-th arrival.
pub proof fn lemma_frames_in_arrival_order(events: Seq<FetchOutcome>)
    ensures
        spec_frames_of(events).len() <= events.len(),
        forall|i: int|
            0 <= i < spec_frames_of(events).len() ==> spec_frames_of(events)[i] == spec_frame_of(
                events[i],
            ),
    decreases events.len(),
{
    if events.len() == 0 {
    } else if spec_outcome_terminal(events[0]) {
    } else {
        lemma_frames_in_arrival_order(events.drop_first());
        assert forall|i: int| 0 <= i < spec_frames_of(events).len() implies spec_frames_of(events)[i]
            == spec_frame_of(events[i]) by {
            if i > 0 {
                assert(spec_frames_of(events)[i] == spec_frames_of(events.drop_first())[i - 1]);
                assert(events.drop_first()[i - 1] == events[i]);
            }
        }
    }
}

/// Law: for an arrival sequence whose first terminal outcome stands at
/// position `k`, exactly `k + 1` frames are emitted; the frame of the
/// terminal outcome is emitted once and is the last, and every frame
/// before it is the frame of a non-terminal arrival, in order.
pub proof fn lemma_exactly_one_terminal_frame(events: Seq<FetchOutcome>, k: int)
    requires
        0 <= k < events.len(),
        spec_outcome_terminal(events[k]),
        forall|i: int| 0 <= i < k ==> !spec_outcome_terminal(events[i]),
    ensures
        spec_frames_of(events).len() == k + 1,
        forall|i: int|
            0 <= i <= k ==> spec_frames_of(events)[i] == spec_frame_of(events[i]),
        forall|i: int| 0 <= i < k ==> !spec_outcome_terminal(events[i]),
    decreases k,
{
    if k == 0 {
    } else {
        assert(!spec_outcome_terminal(events[0]));
        assert(forall|i: int|
            0 <= i < k - 1 ==> events.drop_first()[i] == events[i + 1]
                && !spec_outcome_terminal(events[i + 1]));
        assert(events.drop_first()[k - 1] == events[k]);
        lemma_exactly_one_terminal_frame(events.drop_first(), k - 1);
        assert forall|i: int| 0 <= i <= k implies spec_frames_of(events)[i] == spec_frame_of(
            events[i],
        ) by {
            if i > 0 {
                assert(spec_frames_of(events)[i] == spec_frames_of(events.drop_first())[i - 1]);
                assert(events.drop_first()[i - 1] == events[i]);
            }
        }
    }
}

} // verus!
