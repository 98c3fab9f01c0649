use base64::Engine;
use mycommandmcp::config::ToolConfig;
use mycommandmcp::runner::{build_command_result, command_result_json, plan_invocation,
    ProcessOutcome};
use mycommandmcp::server::{finish_tool, PendingTool};

fn tool() -> ToolConfig {
    ToolConfig {
        name: "t".to_string(),
        description: "a tool".to_string(),
        command: "/bin/cat".to_string(),
        path: "/tmp".to_string(),
        accepts_args: true,
        accept_input: false,
        default_args: None,
        content_type: None,
        content_disposition: None,
    }
}

fn pending(t: &ToolConfig, id: &str) -> PendingTool {
    PendingTool {
        id_json: id.to_string(),
        tool: t.clone(),
        plan: plan_invocation(t, None, None),
    }
}

fn finished(status: i32, stdout: &[u8], stderr: &[u8]) -> ProcessOutcome {
    ProcessOutcome::Finished {
        status: Some(status),
        stdout: stdout.to_vec(),
        stderr: stderr.to_vec(),
    }
}

#[test]
fn argv_orders_default_args_before_call_args() {
    let mut t = tool();
    t.default_args = Some("a b".to_string());
    let p = plan_invocation(&t, Some("c d"), None);
    assert_eq!(p.argv, vec!["a", "b", "c", "d"]);
}

#[test]
fn argv_splits_on_runs_of_whitespace() {
    let mut t = tool();
    t.default_args = Some("  -l\t--color   auto\n".to_string());
    let p = plan_invocation(&t, Some(""), None);
    assert_eq!(p.argv, vec!["-l", "--color", "auto"]);
}

#[test]
fn argv_splits_on_unicode_whitespace_like_split_whitespace() {
    let raw = "a\u{a0}b\u{2003}c \u{3000} d\u{85}e";
    let mut t = tool();
    t.default_args = Some(raw.to_string());
    let p = plan_invocation(&t, None, None);
    let expected: Vec<&str> = raw.split_whitespace().collect();
    assert_eq!(p.argv, expected);
    assert_eq!(p.argv, vec!["a", "b", "c", "d", "e"]);
}

#[test]
fn disabled_args_never_reach_argv() {
    let mut t = tool();
    t.accepts_args = false;
    t.default_args = Some("a b".to_string());
    let p = plan_invocation(&t, Some("c d"), None);
    assert!(p.argv.is_empty());
}

#[test]
fn stdin_pipe_opens_exactly_when_input_accepted() {
    let mut t = tool();
    t.accept_input = true;
    let p = plan_invocation(&t, None, Some("hi"));
    assert!(p.open_stdin);
    assert_eq!(p.stdin_text.as_deref(), Some("hi"));

    // No input supplied: the pipe still opens, carries nothing, and the
    // runner closes it at once, so the process sees empty input.
    let p = plan_invocation(&t, None, None);
    assert!(p.open_stdin);
    assert!(p.stdin_text.is_none());

    // Input refused: the caller's text never reaches the process.
    t.accept_input = false;
    let p = plan_invocation(&t, None, Some("hi"));
    assert!(!p.open_stdin);
    assert!(p.stdin_text.is_none());
}

#[test]
fn text_output_passes_through_lossily() {
    let t = tool();
    let r = build_command_result(&t, finished(0, b"hello \xff world", b"warn"));
    assert!(!r.is_binary);
    assert_eq!(r.output, String::from_utf8_lossy(b"hello \xff world"));
    assert_eq!(r.error, "warn");
    assert_eq!(r.status_code, 0);
}

#[test]
fn binary_output_round_trips_through_base64() {
    let mut t = tool();
    t.content_type = Some("image/png".to_string());
    let payload: Vec<u8> = vec![0x89, 0x50, 0x4e, 0x47, 0x00, 0xff, 0x10];
    let r = build_command_result(&t, finished(0, &payload, b""));
    assert!(r.is_binary);
    let decoded = base64::engine::general_purpose::STANDARD
        .decode(r.output.as_bytes())
        .expect("output must be valid base64");
    assert_eq!(decoded, payload);

    let line = finish_tool(&pending(&t, "1"), finished(0, &payload, b""));
    let v: serde_json::Value = serde_json::from_str(&line).unwrap();
    let uri = v["result"]["content"][0]["resource"]["uri"].as_str().unwrap();
    let b64 = uri.strip_prefix("data:image/png;base64,").unwrap();
    let decoded = base64::engine::general_purpose::STANDARD.decode(b64).unwrap();
    assert_eq!(decoded, payload);
    assert_eq!(
        v["result"]["content"][0]["resource"]["mimeType"],
        serde_json::Value::from("image/png")
    );
}

#[test]
fn textual_content_types_are_not_binary() {
    for ct in ["text/plain", "text/html", "application/json", "application/xml"] {
        let mut t = tool();
        t.content_type = Some(ct.to_string());
        let r = build_command_result(&t, finished(0, b"x", b""));
        assert!(!r.is_binary, "{ct} must classify as text");
    }
    for ct in ["image/png", "application/pdf", "audio/mpeg"] {
        let mut t = tool();
        t.content_type = Some(ct.to_string());
        let r = build_command_result(&t, finished(0, b"x", b""));
        assert!(r.is_binary, "{ct} must classify as binary");
    }
}

#[test]
fn plain_text_result_is_a_text_block_with_serialized_result() {
    let t = tool();
    let line = finish_tool(&pending(&t, "3"), finished(0, b"out text", b"err text"));
    let v: serde_json::Value = serde_json::from_str(&line).unwrap();
    assert_eq!(v["id"], serde_json::Value::from(3));
    assert_eq!(v["result"]["isError"], serde_json::Value::from(false));
    assert_eq!(
        v["result"]["content"][0]["type"],
        serde_json::Value::from("text")
    );
    let inner: serde_json::Value =
        serde_json::from_str(v["result"]["content"][0]["text"].as_str().unwrap()).unwrap();
    assert_eq!(inner["status_code"], serde_json::Value::from(0));
    assert_eq!(inner["output"], serde_json::Value::from("out text"));
    assert_eq!(inner["error"], serde_json::Value::from("err text"));
    assert!(inner["content_type"].is_null());
    assert_eq!(inner["is_binary"], serde_json::Value::from(false));
}

#[test]
fn nonzero_exit_and_missing_status_are_marked() {
    let t = tool();
    let line = finish_tool(&pending(&t, "1"), finished(2, b"", b"boom"));
    let v: serde_json::Value = serde_json::from_str(&line).unwrap();
    assert_eq!(v["result"]["isError"], serde_json::Value::from(true));

    let killed = ProcessOutcome::Finished { status: None, stdout: vec![], stderr: vec![] };
    let r = build_command_result(&t, killed);
    assert_eq!(r.status_code, -1);
}

#[test]
fn spawn_failure_is_an_error_result_not_a_protocol_error() {
    let t = tool();
    let outcome = ProcessOutcome::SpawnFailed { message: "No such file".to_string() };
    let line = finish_tool(&pending(&t, "4"), outcome);
    let v: serde_json::Value = serde_json::from_str(&line).unwrap();
    assert!(v.get("error").is_none());
    assert_eq!(v["result"]["isError"], serde_json::Value::from(true));
    let inner: serde_json::Value =
        serde_json::from_str(v["result"]["content"][0]["text"].as_str().unwrap()).unwrap();
    assert_eq!(inner["status_code"], serde_json::Value::from(-1));
    assert_eq!(inner["error"], serde_json::Value::from("No such file"));
    assert_eq!(inner["output"], serde_json::Value::from(""));
}

#[test]
fn nonbinary_declared_type_returns_resource_block_with_text() {
    let mut t = tool();
    t.content_type = Some("application/json".to_string());
    t.content_disposition = Some("attachment; filename=o.json".to_string());
    let line = finish_tool(&pending(&t, "6"), finished(0, b"{\"k\":1}", b""));
    let v: serde_json::Value = serde_json::from_str(&line).unwrap();
    let res = &v["result"]["content"][0]["resource"];
    assert_eq!(res["uri"], serde_json::Value::from("data:application/json"));
    assert_eq!(res["mimeType"], serde_json::Value::from("application/json"));
    assert_eq!(res["text"], serde_json::Value::from("{\"k\":1}"));
    assert_eq!(
        res["contentDisposition"],
        serde_json::Value::from("attachment; filename=o.json")
    );
}

#[test]
fn command_result_json_renders_pretty_fields_in_order() {
    let r = build_command_result(&tool(), finished(-7, b"a\"b", b""));
    let text = command_result_json(&r);
    assert_eq!(
        text,
        "{\n  \"status_code\": -7,\n  \"output\": \"a\\\"b\",\n  \"error\": \"\",\
         \n  \"content_type\": null,\n  \"content_disposition\": null,\
         \n  \"is_binary\": false\n}"
    );
}
