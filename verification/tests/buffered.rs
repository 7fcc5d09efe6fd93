use gemini_oxide::{finish_json, finish_text, GeminiError};

#[test]
fn nonzero_exit_is_a_runtime_error_with_the_diagnostics() {
    let result = finish_text(false, Vec::new(), b"Critical Failure".to_vec());
    let err = result.unwrap_err();
    let msg = err.message();
    assert!(msg.contains("Runtime Error"));
    assert!(msg.contains("Critical Failure"));
}

#[test]
fn nonzero_exit_wins_in_json_mode_too() {
    let result = finish_json(false, b"{\"response\": \"fine\"}".to_vec(), b"boom".to_vec());
    let err = result.unwrap_err();
    assert!(matches!(err, GeminiError::RuntimeError(_)));
    assert!(err.message().contains("boom"));
}

#[test]
fn successful_text_is_trimmed() {
    let result = finish_text(true, b"  hello there \n".to_vec(), Vec::new());
    assert_eq!(result.unwrap(), "hello there");
}

#[test]
fn invalid_utf8_is_replaced_not_rejected() {
    let result = finish_text(true, vec![0x68, 0x69, 0xFF], Vec::new());
    assert_eq!(result.unwrap(), "hi\u{FFFD}");
}

#[test]
fn test_malformed_json_handling() {
    let result = finish_json(true, b"This is not JSON".to_vec(), Vec::new());
    let err = result.unwrap_err();
    assert!(matches!(err, GeminiError::JsonParseFailed(_)));
    assert!(err.message().contains("Failed to parse JSON"));
}

#[test]
fn wrong_shape_is_a_parse_failure() {
    let result = finish_json(true, b"[1, 2, 3]".to_vec(), Vec::new());
    assert!(matches!(result.unwrap_err(), GeminiError::JsonParseFailed(_)));

    let missing_response = finish_json(true, b"{\"stats\": null}".to_vec(), Vec::new());
    assert!(matches!(missing_response.unwrap_err(), GeminiError::JsonParseFailed(_)));
}

#[test]
fn embedded_error_beats_a_clean_exit() {
    let body = b"{\"response\": \"partial\", \"error\": {\"type\": \"quota\", \"message\": \"Quota exceeded\", \"code\": 429}}";
    let result = finish_json(true, body.to_vec(), Vec::new());
    let err = result.unwrap_err();
    assert!(matches!(err, GeminiError::ApiError(_)));
    assert!(err.message().contains("Gemini API Error: Quota exceeded"));
}

#[test]
fn null_error_field_is_no_error() {
    let body = b"{\"response\": \"ok\", \"error\": null}";
    let out = finish_json(true, body.to_vec(), Vec::new()).unwrap();
    assert_eq!(out.response, "ok");
    assert!(out.error.is_none());
    assert!(out.stats.is_none());
}

#[test]
fn full_fixture_decodes_every_field() {
    let body = br#"{
        "response": "Mock response",
        "stats": {
            "models": {
                "gemini-2.5-flash": {
                    "api": {"totalRequests": 2, "totalLatencyMs": 123},
                    "tokens": {"prompt": 10, "candidates": 20, "total": 30}
                }
            },
            "tools": {"totalCalls": 1, "totalSuccess": 1, "totalFail": 0},
            "files": {"totalLinesAdded": 5, "totalLinesRemoved": 2}
        }
    }"#;
    let out = finish_json(true, body.to_vec(), Vec::new()).unwrap();
    assert_eq!(out.response, "Mock response");
    assert!(out.error.is_none());
    let stats = out.stats.expect("stats should be present");
    assert_eq!(stats.tools.total_calls, 1);
    assert_eq!(stats.tools.total_success, 1);
    assert_eq!(stats.tools.total_fail, 0);
    assert_eq!(stats.files.total_lines_added, 5);
    assert_eq!(stats.files.total_lines_removed, 2);
    assert_eq!(stats.models.len(), 1);
    let (name, model) = &stats.models[0];
    assert_eq!(name, "gemini-2.5-flash");
    assert_eq!(model.api.len(), 2);
    let mut tokens = model.tokens.clone();
    tokens.sort();
    assert_eq!(
        tokens,
        vec![
            ("candidates".to_string(), 20),
            ("prompt".to_string(), 10),
            ("total".to_string(), 30)
        ]
    );
}

#[test]
fn negative_and_absent_codes_decode() {
    let body = b"{\"response\": \"x\", \"error\": {\"type\": \"t\", \"message\": \"m\", \"code\": -7}}";
    let err = finish_json(true, body.to_vec(), Vec::new()).unwrap_err();
    assert!(matches!(err, GeminiError::ApiError(m) if m == "m"));

    let body2 = b"{\"response\": \"x\", \"error\": {\"type\": \"t\", \"message\": \"m2\"}}";
    let err2 = finish_json(true, body2.to_vec(), Vec::new()).unwrap_err();
    assert!(matches!(err2, GeminiError::ApiError(m) if m == "m2"));
}

#[test]
fn a_non_integer_token_counter_is_a_parse_failure() {
    let body = br#"{
        "response": "r",
        "stats": {
            "models": {"m": {"api": {}, "tokens": {"prompt": "ten"}}},
            "tools": {"totalCalls": 0, "totalSuccess": 0, "totalFail": 0},
            "files": {"totalLinesAdded": 0, "totalLinesRemoved": 0}
        }
    }"#;
    let result = finish_json(true, body.to_vec(), Vec::new());
    assert!(matches!(result.unwrap_err(), GeminiError::JsonParseFailed(_)));
}

#[test]
fn error_messages_name_their_kind() {
    assert_eq!(
        GeminiError::CliLaunchFailed("no such file".to_string()).message(),
        "Failed to start Gemini CLI. Is it installed?"
    );
    assert_eq!(
        GeminiError::JsonParseFailed("eof".to_string()).message(),
        "Failed to parse JSON output"
    );
    assert_eq!(
        GeminiError::ApiError("quota".to_string()).message(),
        "Gemini API Error: quota"
    );
    assert_eq!(
        GeminiError::RuntimeError("crash".to_string()).message(),
        "Runtime Error: crash"
    );
}
