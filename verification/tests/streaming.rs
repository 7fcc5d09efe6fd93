use gemini_oxide::{collect_events, decode_stream_line, GeminiError, JsonValue, StreamEvent};

fn lines(raw: &[&str]) -> Vec<Vec<u8>> {
    raw.iter().map(|l| l.as_bytes().to_vec()).collect()
}

#[test]
fn events_come_in_line_order_with_blanks_skipped() {
    let input = lines(&[
        "{\"type\": \"init\", \"session_id\": \"s1\", \"model\": \"m\", \"timestamp\": \"t0\"}",
        "",
        "  ",
        "{\"type\": \"message\", \"role\": \"assistant\", \"content\": \"hi\", \"delta\": true, \"timestamp\": \"t1\"}",
        "",
        "{\"type\": \"result\", \"status\": \"ok\", \"stats\": {}, \"timestamp\": \"t2\"}",
    ]);
    let events = collect_events(&input);
    assert_eq!(events.len(), 3);
    let first = events[0].as_ref().unwrap();
    assert!(matches!(first, StreamEvent::Init { .. }));
    let second = events[1].as_ref().unwrap();
    assert!(matches!(second, StreamEvent::Message { .. }));
    let last = events[2].as_ref().unwrap();
    assert!(matches!(last, StreamEvent::Result { .. }));
}

#[test]
fn a_bad_line_ends_the_stream_with_one_failure() {
    let input = lines(&[
        "{\"type\": \"init\", \"session_id\": \"s\", \"model\": \"m\", \"timestamp\": \"t\"}",
        "not json at all",
        "{\"type\": \"error\", \"message\": \"never reached\"}",
    ]);
    let events = collect_events(&input);
    assert_eq!(events.len(), 2);
    assert!(events[0].is_ok());
    assert!(matches!(
        events[1].as_ref().unwrap_err(),
        GeminiError::JsonParseFailed(_)
    ));
}

#[test]
fn blank_lines_yield_nothing() {
    assert!(decode_stream_line(&b"".to_vec()).is_none());
    assert!(decode_stream_line(&b" \t\r".to_vec()).is_none());
}

#[test]
fn an_unrecognized_tag_is_a_decode_failure() {
    let out = decode_stream_line(&b"{\"type\": \"telemetry\"}".to_vec());
    let item = out.expect("a non-blank line yields an item");
    assert!(matches!(item.unwrap_err(), GeminiError::JsonParseFailed(_)));
}

#[test]
fn every_event_field_survives_decoding() {
    let init = decode_stream_line(
        &b"{\"type\": \"init\", \"session_id\": \"abc\", \"model\": \"g\", \"timestamp\": \"T\"}"
            .to_vec(),
    )
    .unwrap()
    .unwrap();
    match init {
        StreamEvent::Init { session_id, model, timestamp } => {
            assert_eq!(session_id, "abc");
            assert_eq!(model, "g");
            assert_eq!(timestamp, "T");
        },
        other => panic!("expected an init event, got {:?}", other),
    }

    let msg = decode_stream_line(
        &b"{\"type\": \"message\", \"role\": \"user\", \"content\": \"hello\", \"timestamp\": \"T1\"}"
            .to_vec(),
    )
    .unwrap()
    .unwrap();
    match msg {
        StreamEvent::Message { role, content, delta, timestamp } => {
            assert_eq!(role, "user");
            assert_eq!(content, "hello");
            assert_eq!(delta, None);
            assert_eq!(timestamp, "T1");
        },
        other => panic!("expected a message event, got {:?}", other),
    }

    let tool = decode_stream_line(
        &b"{\"type\": \"tool_use\", \"tool_name\": \"read\", \"parameters\": {\"path\": \"x\"}, \"timestamp\": \"T2\"}"
            .to_vec(),
    )
    .unwrap()
    .unwrap();
    match tool {
        StreamEvent::ToolUse { tool_name, parameters, timestamp } => {
            assert_eq!(tool_name, "read");
            assert!(matches!(parameters, JsonValue::Obj(ref fields) if fields.len() == 1));
            assert_eq!(timestamp, "T2");
        },
        other => panic!("expected a tool-use event, got {:?}", other),
    }

    let tool_result = decode_stream_line(
        &b"{\"type\": \"tool_result\", \"tool_id\": \"7\", \"status\": \"done\", \"output\": \"ok\", \"timestamp\": \"T3\"}"
            .to_vec(),
    )
    .unwrap()
    .unwrap();
    match tool_result {
        StreamEvent::ToolResult { tool_id, status, output, timestamp } => {
            assert_eq!(tool_id, "7");
            assert_eq!(status, "done");
            assert_eq!(output, "ok");
            assert_eq!(timestamp, "T3");
        },
        other => panic!("expected a tool-result event, got {:?}", other),
    }

    let err_ev = decode_stream_line(&b"{\"type\": \"error\", \"message\": \"oops\"}".to_vec())
        .unwrap()
        .unwrap();
    match err_ev {
        StreamEvent::Error { message } => assert_eq!(message, "oops"),
        other => panic!("expected an error event, got {:?}", other),
    }
}

#[test]
fn a_missing_required_field_fails_the_line() {
    let out = decode_stream_line(&b"{\"type\": \"init\", \"model\": \"m\", \"timestamp\": \"t\"}".to_vec());
    assert!(matches!(
        out.unwrap().unwrap_err(),
        GeminiError::JsonParseFailed(_)
    ));
}
