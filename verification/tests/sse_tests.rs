use codex_http_server::protocol::{AgentEvent, EventTag, FetchOutcome};
use codex_http_server::sse::{
    drain_frames, error_body, frame_json, next_frame, sse_record, FrameLabel, SseFrame,
};
use codex_http_server::text::{json_escape, json_string};

fn progress(payload: &str) -> FetchOutcome {
    FetchOutcome::Event(AgentEvent {
        tag: EventTag::Progress,
        payload: payload.to_string(),
    })
}

fn complete(payload: &str) -> FetchOutcome {
    FetchOutcome::Event(AgentEvent {
        tag: EventTag::TaskComplete,
        payload: payload.to_string(),
    })
}

#[test]
fn json_escape_leaves_plain_text_alone() {
    assert_eq!(json_escape("hello world"), "hello world");
    assert_eq!(json_escape(""), "");
    assert_eq!(json_escape("héllo ✓"), "héllo ✓");
}

#[test]
fn json_escape_escapes_quotes_backslashes_and_controls() {
    assert_eq!(json_escape("a\"b"), "a\\\"b");
    assert_eq!(json_escape("a\\b"), "a\\\\b");
    assert_eq!(json_escape("a\nb\rc\td"), "a\\nb\\rc\\td");
    assert_eq!(json_escape("\u{0}"), "\\u0000");
    assert_eq!(json_escape("\u{1f}"), "\\u001f");
}

#[test]
fn json_string_quotes_and_escapes() {
    assert_eq!(json_string("plain"), "\"plain\"");
    assert_eq!(json_string("say \"hi\""), "\"say \\\"hi\\\"\"");
}

#[test]
fn json_string_output_parses_back_to_the_same_text() {
    for text in ["plain", "say \"hi\"", "tab\there", "back\\slash", "mixed\n\u{1}é"] {
        let literal = json_string(text);
        let parsed: String = serde_json::from_str(&literal).unwrap();
        assert_eq!(parsed, text);
    }
}

#[test]
fn error_body_wraps_the_description() {
    assert_eq!(error_body("boom"), "{\"error\":\"boom\"}");
    assert_eq!(error_body("a \"b\""), "{\"error\":\"a \\\"b\\\"\"}");
}

#[test]
fn next_frame_wraps_events_as_data_frames() {
    let (frame, terminal) = next_frame(progress("{\"step\":1}"));
    assert_eq!(frame.label, FrameLabel::Data);
    assert_eq!(frame.payload, "{\"step\":1}");
    assert!(!terminal);

    let (frame, terminal) = next_frame(complete("{\"done\":true}"));
    assert_eq!(frame.label, FrameLabel::Data);
    assert_eq!(frame.payload, "{\"done\":true}");
    assert!(terminal);

    let (frame, terminal) = next_frame(FetchOutcome::Event(AgentEvent {
        tag: EventTag::Error,
        payload: "{\"message\":\"bad\"}".to_string(),
    }));
    assert_eq!(frame.label, FrameLabel::Data);
    assert!(terminal);
}

#[test]
fn next_frame_turns_a_fetch_failure_into_a_terminal_error_frame() {
    let (frame, terminal) = next_frame(FetchOutcome::Failure("pipe closed".to_string()));
    assert_eq!(frame.label, FrameLabel::Error);
    assert_eq!(frame.payload, "pipe closed");
    assert!(terminal);
}

#[test]
fn sse_record_has_the_exact_wire_form() {
    let frame = SseFrame {
        label: FrameLabel::Data,
        payload: "{\"x\":1}".to_string(),
    };
    assert_eq!(
        sse_record(&frame),
        "data: {\"event\":\"data\",\"data\":{\"x\":1}}\n\n"
    );

    let frame = SseFrame {
        label: FrameLabel::Error,
        payload: "boom".to_string(),
    };
    assert_eq!(
        sse_record(&frame),
        "data: {\"event\":\"error\",\"data\":{\"error\":\"boom\"}}\n\n"
    );
}

#[test]
fn frame_json_is_valid_json_with_the_label_inside() {
    let frame = SseFrame {
        label: FrameLabel::Data,
        payload: "{\"x\":[1,2]}".to_string(),
    };
    let value: serde_json::Value = serde_json::from_str(&frame_json(&frame)).unwrap();
    assert_eq!(value.get("event").and_then(|v| v.as_str()), Some("data"));
    assert_eq!(
        value.get("data").and_then(|v| v.get("x")).and_then(|v| v.as_array()).map(|a| a.len()),
        Some(2)
    );

    let frame = SseFrame {
        label: FrameLabel::Error,
        payload: "lost \"it\"".to_string(),
    };
    let value: serde_json::Value = serde_json::from_str(&frame_json(&frame)).unwrap();
    assert_eq!(value.get("event").and_then(|v| v.as_str()), Some("error"));
    assert_eq!(
        value.get("data").and_then(|v| v.get("error")).and_then(|v| v.as_str()),
        Some("lost \"it\"")
    );
}

#[test]
fn drain_emits_frames_in_arrival_order_up_to_the_terminal_event() {
    let events = vec![
        progress("{\"n\":0}"),
        progress("{\"n\":1}"),
        progress("{\"n\":2}"),
        complete("{\"n\":3}"),
    ];
    let frames = drain_frames(events);
    assert_eq!(frames.len(), 4);
    for (i, frame) in frames.iter().enumerate() {
        assert_eq!(frame.label, FrameLabel::Data);
        assert_eq!(frame.payload, format!("{{\"n\":{}}}", i));
    }
}

#[test]
fn drain_stops_at_the_first_terminal_event() {
    let events = vec![
        progress("a"),
        complete("b"),
        progress("after"),
        complete("again"),
    ];
    let frames = drain_frames(events);
    assert_eq!(frames.len(), 2);
    assert_eq!(frames[1].payload, "b");
}

#[test]
fn drain_stops_at_a_fetch_failure() {
    let events = vec![
        progress("a"),
        FetchOutcome::Failure("gone".to_string()),
        progress("never seen"),
    ];
    let frames = drain_frames(events);
    assert_eq!(frames.len(), 2);
    assert_eq!(frames[1].label, FrameLabel::Error);
    assert_eq!(frames[1].payload, "gone");
}

#[test]
fn drain_without_terminal_event_emits_one_frame_per_arrival() {
    let events = vec![progress("a"), progress("b")];
    let frames = drain_frames(events);
    assert_eq!(frames.len(), 2);
    let frames = drain_frames(Vec::new());
    assert_eq!(frames.len(), 0);
}
