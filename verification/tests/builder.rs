use gemini_oxide::Gemini;

#[test]
fn test_builder_defaults() {
    let g = Gemini::new("hello");
    assert_eq!(g.prompt, "hello");
    assert_eq!(g.bin_path, "gemini");
    assert!(!g.yolo);
}

#[test]
fn test_builder_overrides() {
    let g = Gemini::new("hello").bin_path("/tmp/test").yolo().model("gpt-4");

    assert_eq!(g.bin_path, "/tmp/test");
    assert!(g.yolo);
    assert_eq!(g.model, Some("gpt-4".to_string()));
}

#[test]
fn test_command_generation() {
    let g = Gemini::new("test").model("my-model").debug();
    let cmd = g.build_command("text");

    let debug_str = format!("{:?}", cmd);
    assert!(debug_str.contains("text"));
    assert!(debug_str.contains("test"));
    assert!(debug_str.contains("my-model"));
}

#[test]
fn builder_accumulates_files_and_dirs_in_order() {
    let g = Gemini::new("go")
        .context("some context")
        .file("a.txt")
        .file("b.txt")
        .include_dir("src")
        .include_dir("docs");
    assert_eq!(g.input_data, Some("some context".to_string()));
    assert_eq!(g.input_files, vec!["a.txt".to_string(), "b.txt".to_string()]);
    assert_eq!(g.include_dirs, vec!["src".to_string(), "docs".to_string()]);
}

#[test]
fn argument_vector_full_order() {
    let g = Gemini::new("ask me")
        .model("m1")
        .yolo()
        .debug()
        .include_dir("a")
        .include_dir("b");
    let inv = g.build_command("json");
    let expected: Vec<String> = vec![
        "--output-format",
        "json",
        "--model",
        "m1",
        "--yolo",
        "--debug",
        "--include-directories",
        "a,b",
        "ask me",
    ]
    .into_iter()
    .map(|s| s.to_string())
    .collect();
    assert_eq!(inv.args, expected);
    assert_eq!(inv.program, "gemini");
}

#[test]
fn argument_vector_minimal_order() {
    let g = Gemini::new("q");
    let inv = g.build_command("text");
    let expected: Vec<String> = vec!["--output-format", "text", "q"]
        .into_iter()
        .map(|s| s.to_string())
        .collect();
    assert_eq!(inv.args, expected);
}

#[test]
fn argument_vector_is_deterministic() {
    let a = Gemini::new("same").model("m").build_command("stream-json");
    let b = Gemini::new("same").model("m").build_command("stream-json");
    assert_eq!(a.program, b.program);
    assert_eq!(a.args, b.args);
}

#[test]
fn stdin_payload_layout() {
    let payload = gemini_oxide::stdin_payload(
        &Some("ctx".to_string()),
        &vec![b"abc".to_vec(), Vec::new()],
    );
    assert_eq!(payload, b"ctx\nabc\n\n".to_vec());

    let no_text = gemini_oxide::stdin_payload(&None, &vec![b"only".to_vec()]);
    assert_eq!(no_text, b"only\n".to_vec());

    let nothing = gemini_oxide::stdin_payload(&None, &Vec::new());
    assert!(nothing.is_empty());
}
