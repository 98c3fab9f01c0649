use base64::Engine;
use mycommandmcp::config::{build_config, ConfigError, PromptConfig, PromptSource,
    ResourceConfig, ToolConfig};
use mycommandmcp::resource::{finish_fetch, finish_read, FetchOutcome, PendingFetch, PendingRead,
    ReadOutcome};

fn tool(name: &str) -> ToolConfig {
    ToolConfig {
        name: name.to_string(),
        description: String::new(),
        command: "/bin/true".to_string(),
        path: "/".to_string(),
        accepts_args: false,
        accept_input: false,
        default_args: None,
        content_type: None,
        content_disposition: None,
    }
}

fn prompt(name: &str) -> PromptConfig {
    PromptConfig {
        name: name.to_string(),
        description: String::new(),
        content: Some("text".to_string()),
        path: None,
        url: None,
    }
}

fn resource(name: &str) -> ResourceConfig {
    ResourceConfig {
        name: name.to_string(),
        description: String::new(),
        path: "x.txt".to_string(),
    }
}

#[test]
fn duplicate_tool_names_fail_before_any_request() {
    let r = build_config(vec![tool("ls"), tool("cat"), tool("ls")], vec![], vec![]);
    match r {
        Err(ConfigError::DuplicateTool { name }) => assert_eq!(name, "ls"),
        _ => panic!("duplicate tool names must be rejected"),
    }
}

#[test]
fn duplicate_prompt_and_resource_names_fail() {
    match build_config(vec![], vec![prompt("p"), prompt("p")], vec![]) {
        Err(ConfigError::DuplicatePrompt { name }) => assert_eq!(name, "p"),
        _ => panic!("duplicate prompt names must be rejected"),
    }
    match build_config(vec![], vec![], vec![resource("r"), resource("r")]) {
        Err(ConfigError::DuplicateResource { name }) => assert_eq!(name, "r"),
        _ => panic!("duplicate resource names must be rejected"),
    }
}

#[test]
fn prompt_needs_exactly_one_source() {
    let mut none = prompt("p");
    none.content = None;
    match build_config(vec![], vec![none], vec![]) {
        Err(ConfigError::PromptWithoutSource { name }) => assert_eq!(name, "p"),
        _ => panic!("a prompt without a source must be rejected"),
    }
    let mut both = prompt("p");
    both.path = Some("/etc/motd".to_string());
    match build_config(vec![], vec![both], vec![]) {
        Err(ConfigError::PromptSourceConflict { name }) => assert_eq!(name, "p"),
        _ => panic!("a prompt with two sources must be rejected"),
    }
    let mut path_and_url = prompt("p");
    path_and_url.content = None;
    path_and_url.path = Some("/etc/motd".to_string());
    path_and_url.url = Some("https://example.com".to_string());
    assert!(build_config(vec![], vec![path_and_url], vec![]).is_err());
}

#[test]
fn valid_config_keeps_entries_in_order() {
    let c = build_config(
        vec![tool("a"), tool("b")],
        vec![prompt("p")],
        vec![resource("r")],
    )
    .expect("a valid configuration must be accepted");
    assert_eq!(c.tools.len(), 2);
    assert_eq!(c.tools[0].name, "a");
    assert_eq!(c.tools[1].name, "b");
    assert_eq!(c.prompts[0].name, "p");
    assert_eq!(c.resources[0].name, "r");
}

#[test]
fn document_validate_matches_build_config() {
    let doc = mycommandmcp::config::ToolsConfig {
        tools: vec![tool("a"), tool("a")],
        prompts: vec![],
        resources: vec![],
        external_configs: vec![],
    };
    assert!(matches!(doc.validate(), Err(ConfigError::DuplicateTool { .. })));
    let doc = mycommandmcp::config::ToolsConfig {
        tools: vec![tool("a")],
        prompts: vec![prompt("p")],
        resources: vec![],
        external_configs: vec![],
    };
    let c = doc.validate().expect("a valid document must validate");
    assert_eq!(c.tools[0].name, "a");
}

#[test]
fn content_source_prefers_inline_then_path_then_url() {
    let p = prompt("p");
    assert!(matches!(p.content_source(), PromptSource::Inline { content } if content == "text"));
    let mut p = prompt("p");
    p.content = None;
    p.path = Some("/a".to_string());
    p.url = Some("https://b".to_string());
    assert!(matches!(p.content_source(), PromptSource::File { path } if path == "/a"));
    let mut p = prompt("p");
    p.content = None;
    p.url = Some("https://b".to_string());
    assert!(matches!(p.content_source(), PromptSource::Url { url } if url == "https://b"));
    let mut p = prompt("p");
    p.content = None;
    assert!(matches!(p.content_source(), PromptSource::Missing));
}

fn pending_read(path: &str) -> PendingRead {
    PendingRead {
        id_json: "1".to_string(),
        uri: format!("file://{}", "res"),
        path: path.to_string(),
    }
}

#[test]
fn text_file_resource_is_reported_as_plain_text() {
    let line = finish_read(
        &pending_read("notes.txt"),
        &ReadOutcome::Read { bytes: b"note body".to_vec() },
    );
    let v: serde_json::Value = serde_json::from_str(&line).unwrap();
    let c = &v["result"]["contents"][0];
    assert_eq!(c["mimeType"], serde_json::Value::from("text/plain"));
    assert_eq!(c["text"], serde_json::Value::from("note body"));
    assert!(c.get("blob").is_none());
    assert_eq!(c["uri"], serde_json::Value::from("file://res"));
}

#[test]
fn unknown_extension_defaults_to_octet_stream_and_base64() {
    let payload: Vec<u8> = vec![1, 2, 3, 254];
    let line = finish_read(
        &pending_read("data.bin"),
        &ReadOutcome::Read { bytes: payload.clone() },
    );
    let v: serde_json::Value = serde_json::from_str(&line).unwrap();
    let c = &v["result"]["contents"][0];
    assert_eq!(
        c["mimeType"],
        serde_json::Value::from("application/octet-stream")
    );
    assert!(c.get("text").is_none());
    let decoded = base64::engine::general_purpose::STANDARD
        .decode(c["blob"].as_str().unwrap())
        .unwrap();
    assert_eq!(decoded, payload);
}

#[test]
fn failed_file_read_is_an_application_error() {
    let line = finish_read(
        &pending_read("/gone/away.txt"),
        &ReadOutcome::Failed { message: "No such file".to_string() },
    );
    let v: serde_json::Value = serde_json::from_str(&line).unwrap();
    assert_eq!(v["error"]["code"], serde_json::Value::from(-32000));
    assert_eq!(
        v["error"]["message"],
        serde_json::Value::from("Failed to read resource file '/gone/away.txt': No such file")
    );
}

fn pending_fetch() -> PendingFetch {
    PendingFetch {
        id_json: "2".to_string(),
        uri: "remote".to_string(),
        url: "https://example.com/x".to_string(),
    }
}

#[test]
fn fetched_resource_takes_mime_from_header_without_parameters() {
    let line = finish_fetch(
        &pending_fetch(),
        &FetchOutcome::Response {
            status: 200,
            content_type_header: Some("text/html; charset=utf-8".to_string()),
            body: b"<p>hi</p>".to_vec(),
        },
    );
    let v: serde_json::Value = serde_json::from_str(&line).unwrap();
    let c = &v["result"]["contents"][0];
    assert_eq!(c["mimeType"], serde_json::Value::from("text/html"));
    assert_eq!(c["text"], serde_json::Value::from("<p>hi</p>"));
}

#[test]
fn fetched_resource_without_header_is_binary_octet_stream() {
    let line = finish_fetch(
        &pending_fetch(),
        &FetchOutcome::Response {
            status: 204,
            content_type_header: None,
            body: vec![9, 8, 7],
        },
    );
    let v: serde_json::Value = serde_json::from_str(&line).unwrap();
    let c = &v["result"]["contents"][0];
    assert_eq!(
        c["mimeType"],
        serde_json::Value::from("application/octet-stream")
    );
    assert!(c.get("blob").is_some());
}

#[test]
fn non_success_status_is_a_fetch_error() {
    let line = finish_fetch(
        &pending_fetch(),
        &FetchOutcome::Response {
            status: 404,
            content_type_header: Some("text/plain".to_string()),
            body: b"nope".to_vec(),
        },
    );
    let v: serde_json::Value = serde_json::from_str(&line).unwrap();
    assert_eq!(v["error"]["code"], serde_json::Value::from(-32000));
    assert_eq!(
        v["error"]["message"],
        serde_json::Value::from("HTTP error 404 when fetching URL: https://example.com/x")
    );
}

#[test]
fn transport_failure_is_a_fetch_error() {
    let line = finish_fetch(
        &pending_fetch(),
        &FetchOutcome::Failed { message: "connection refused".to_string() },
    );
    let v: serde_json::Value = serde_json::from_str(&line).unwrap();
    assert_eq!(v["error"]["code"], serde_json::Value::from(-32000));
    assert_eq!(
        v["error"]["message"],
        serde_json::Value::from(
            "Failed to fetch URL 'https://example.com/x': connection refused"
        )
    );
}
