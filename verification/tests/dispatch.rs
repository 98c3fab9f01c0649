use mycommandmcp::config::{ConfigData, PromptConfig, ResourceConfig, ToolConfig};
use mycommandmcp::server::{DispatchStep, MyCommandMCPServer};

fn tool(name: &str) -> ToolConfig {
    ToolConfig {
        name: name.to_string(),
        description: format!("tool {name}"),
        command: "/bin/echo".to_string(),
        path: "/tmp".to_string(),
        accepts_args: true,
        accept_input: false,
        default_args: None,
        content_type: None,
        content_disposition: None,
    }
}

fn prompt(name: &str, content: &str) -> PromptConfig {
    PromptConfig {
        name: name.to_string(),
        description: format!("prompt {name}"),
        content: Some(content.to_string()),
        path: None,
        url: None,
    }
}

fn resource(name: &str, path: &str) -> ResourceConfig {
    ResourceConfig {
        name: name.to_string(),
        description: format!("resource {name}"),
        path: path.to_string(),
    }
}

fn server() -> MyCommandMCPServer {
    MyCommandMCPServer::new(ConfigData {
        tools: vec![tool("list")],
        prompts: vec![prompt("hello", "say hello")],
        resources: vec![resource("notes", "notes.txt"), resource("blob", "data.bin")],
    })
}

fn reply_of(step: DispatchStep) -> String {
    match step {
        DispatchStep::Reply(s) => s,
        _ => panic!("expected a reply line"),
    }
}

fn parse(line: &str) -> serde_json::Value {
    serde_json::from_str(line).expect("reply must be valid JSON")
}

#[test]
fn unparseable_line_yields_parse_error_with_null_id() {
    let s = server();
    let line = reply_of(s.handle_request("not json"));
    assert_eq!(
        line,
        "{\"jsonrpc\":\"2.0\",\"id\":null,\"error\":{\"code\":-32700,\"message\":\"Parse error\"}}"
    );
    let v = parse(&line);
    assert_eq!(v["error"]["code"], serde_json::Value::from(-32700));
    assert!(v["id"].is_null());
}

#[test]
fn unknown_method_yields_method_not_found_and_echoes_id() {
    let s = server();
    let line = reply_of(s.handle_request("{\"method\":\"bogus\",\"id\":7}"));
    let v = parse(&line);
    assert_eq!(v["error"]["code"], serde_json::Value::from(-32601));
    assert_eq!(v["id"], serde_json::Value::from(7));
    assert_eq!(
        v["error"]["message"],
        serde_json::Value::from("Method not found: bogus")
    );
}

#[test]
fn notification_methods_are_silent() {
    let s = server();
    for body in [
        "{\"method\":\"notifications/initialized\"}",
        "{\"method\":\"notifications/whatever\",\"id\":3,\"params\":{\"x\":1}}",
        "{\"method\":\"notifications/\"}",
    ] {
        match s.handle_request(body) {
            DispatchStep::Silence => {}
            _ => panic!("notification must produce no output line"),
        }
    }
}

#[test]
fn missing_method_matches_no_route() {
    let s = server();
    let v = parse(&reply_of(s.handle_request("{\"id\":1}")));
    assert_eq!(v["error"]["code"], serde_json::Value::from(-32601));
    let v = parse(&reply_of(s.handle_request("{\"method\":42,\"id\":1}")));
    assert_eq!(v["error"]["code"], serde_json::Value::from(-32601));
}

#[test]
fn initialize_reports_version_and_capabilities() {
    let s = server();
    let line = reply_of(s.handle_request("{\"method\":\"initialize\",\"id\":3}"));
    assert_eq!(
        line,
        "{\"jsonrpc\":\"2.0\",\"id\":3,\"result\":{\"protocolVersion\":\"2024-11-05\",\
         \"capabilities\":{\"tools\":{},\"prompts\":{},\"resources\":{}},\
         \"serverInfo\":{\"name\":\"mycommandmcp\",\"version\":\"0.1.0\"}}}"
    );
}

#[test]
fn initialized_returns_empty_object() {
    let s = server();
    let v = parse(&reply_of(s.handle_request("{\"method\":\"initialized\",\"id\":4}")));
    assert!(v["result"].as_object().unwrap().is_empty());
    assert_eq!(v["id"], serde_json::Value::from(4));
}

#[test]
fn id_is_echoed_verbatim_for_strings_and_null() {
    let s = server();
    let v = parse(&reply_of(
        s.handle_request("{\"method\":\"initialized\",\"id\":\"abc\"}"),
    ));
    assert_eq!(v["id"], serde_json::Value::from("abc"));
    let v = parse(&reply_of(s.handle_request("{\"method\":\"initialized\",\"id\":null}")));
    assert!(v["id"].is_null());
    let v = parse(&reply_of(s.handle_request("{\"method\":\"initialized\"}")));
    assert!(v["id"].is_null());
}

#[test]
fn tools_list_includes_input_property_only_when_input_accepted() {
    let mut with_input = tool("reader");
    with_input.accept_input = true;
    let s = MyCommandMCPServer::new(ConfigData {
        tools: vec![tool("plain"), with_input],
        prompts: vec![],
        resources: vec![],
    });
    let v = parse(&reply_of(s.handle_request("{\"method\":\"tools/list\",\"id\":1}")));
    let tools = v["result"]["tools"].as_array().unwrap();
    assert_eq!(tools.len(), 2);
    assert_eq!(tools[0]["name"], serde_json::Value::from("plain"));
    let props0 = tools[0]["inputSchema"]["properties"].as_object().unwrap();
    assert!(props0.contains_key("args"));
    assert!(!props0.contains_key("input"));
    let props1 = tools[1]["inputSchema"]["properties"].as_object().unwrap();
    assert!(props1.contains_key("args"));
    assert!(props1.contains_key("input"));
}

#[test]
fn prompts_list_and_get() {
    let s = server();
    let v = parse(&reply_of(s.handle_request("{\"method\":\"prompts/list\",\"id\":1}")));
    let prompts = v["result"]["prompts"].as_array().unwrap();
    assert_eq!(prompts.len(), 1);
    assert_eq!(prompts[0]["name"], serde_json::Value::from("hello"));

    let v = parse(&reply_of(s.handle_request(
        "{\"method\":\"prompts/get\",\"id\":2,\"params\":{\"name\":\"hello\"}}",
    )));
    assert_eq!(
        v["result"]["messages"][0]["content"]["text"],
        serde_json::Value::from("say hello")
    );
    assert_eq!(
        v["result"]["messages"][0]["role"],
        serde_json::Value::from("user")
    );
}

#[test]
fn prompts_get_not_found_is_application_error_with_id() {
    let s = server();
    let v = parse(&reply_of(s.handle_request(
        "{\"method\":\"prompts/get\",\"id\":9,\"params\":{\"name\":\"nope\"}}",
    )));
    assert_eq!(v["error"]["code"], serde_json::Value::from(-32000));
    assert_eq!(v["id"], serde_json::Value::from(9));
    assert_eq!(
        v["error"]["message"],
        serde_json::Value::from("Prompt not found: nope")
    );
}

#[test]
fn missing_params_is_invalid_params_error() {
    let s = server();
    for method in ["tools/call", "prompts/get", "resources/read"] {
        let v = parse(&reply_of(
            s.handle_request(&format!("{{\"method\":\"{method}\",\"id\":1}}")),
        ));
        assert_eq!(v["error"]["code"], serde_json::Value::from(-32602));
        assert_eq!(v["id"], serde_json::Value::from(1));
    }
    // params present but not an object counts as missing
    let v = parse(&reply_of(s.handle_request(
        "{\"method\":\"tools/call\",\"id\":1,\"params\":3}",
    )));
    assert_eq!(v["error"]["code"], serde_json::Value::from(-32602));
}

#[test]
fn missing_name_or_uri_is_application_error() {
    let s = server();
    let v = parse(&reply_of(s.handle_request(
        "{\"method\":\"tools/call\",\"id\":1,\"params\":{}}",
    )));
    assert_eq!(v["error"]["code"], serde_json::Value::from(-32000));
    assert_eq!(
        v["error"]["message"],
        serde_json::Value::from("Missing tool name in request")
    );
    let v = parse(&reply_of(s.handle_request(
        "{\"method\":\"resources/read\",\"id\":1,\"params\":{}}",
    )));
    assert_eq!(
        v["error"]["message"],
        serde_json::Value::from("Missing resource uri in request")
    );
}

#[test]
fn tool_not_found_is_application_error() {
    let s = server();
    let v = parse(&reply_of(s.handle_request(
        "{\"method\":\"tools/call\",\"id\":1,\"params\":{\"name\":\"nope\"}}",
    )));
    assert_eq!(v["error"]["code"], serde_json::Value::from(-32000));
    assert_eq!(
        v["error"]["message"],
        serde_json::Value::from("Tool 'nope' not found")
    );
}

#[test]
fn tools_call_produces_run_step_with_composed_argv() {
    let mut t = tool("list");
    t.default_args = Some("a b".to_string());
    let s = MyCommandMCPServer::new(ConfigData {
        tools: vec![t],
        prompts: vec![],
        resources: vec![],
    });
    let step = s.handle_request(
        "{\"method\":\"tools/call\",\"id\":5,\"params\":{\"name\":\"list\",\
         \"arguments\":{\"args\":\"c d\"}}}",
    );
    match step {
        DispatchStep::RunTool(p) => {
            assert_eq!(p.id_json, "5");
            assert_eq!(p.plan.command, "/bin/echo");
            assert_eq!(p.plan.working_dir, "/tmp");
            assert_eq!(p.plan.argv, vec!["a", "b", "c", "d"]);
            assert!(!p.plan.open_stdin);
            assert!(p.plan.stdin_text.is_none());
        }
        _ => panic!("expected a pending tool run"),
    }
}

#[test]
fn non_object_arguments_are_ignored() {
    let s = server();
    let step = s.handle_request(
        "{\"method\":\"tools/call\",\"id\":1,\"params\":{\"name\":\"list\",\"arguments\":\"c\"}}",
    );
    match step {
        DispatchStep::RunTool(p) => assert!(p.plan.argv.is_empty()),
        _ => panic!("expected a pending tool run"),
    }
}

#[test]
fn non_string_name_counts_as_missing() {
    let s = server();
    let v = parse(&reply_of(s.handle_request(
        "{\"method\":\"tools/call\",\"id\":1,\"params\":{\"name\":7}}",
    )));
    assert_eq!(
        v["error"]["message"],
        serde_json::Value::from("Missing tool name in request")
    );
}

#[test]
fn resources_list_reports_mime_by_extension() {
    let s = MyCommandMCPServer::new(ConfigData {
        tools: vec![],
        prompts: vec![],
        resources: vec![
            resource("cfg", "settings.json"),
            resource("notes", "notes.txt"),
            resource("blob", "data.bin"),
        ],
    });
    let v = parse(&reply_of(s.handle_request("{\"method\":\"resources/list\",\"id\":1}")));
    let rs = v["result"]["resources"].as_array().unwrap();
    assert_eq!(rs[0]["mimeType"], serde_json::Value::from("application/json"));
    assert_eq!(rs[1]["mimeType"], serde_json::Value::from("text/plain"));
    assert_eq!(rs[2]["mimeType"], serde_json::Value::from("application/octet-stream"));
    assert_eq!(rs[1]["uri"], serde_json::Value::from("file://notes"));
}

#[test]
fn resources_read_strips_file_prefix_and_dispatches_by_path() {
    let s = MyCommandMCPServer::new(ConfigData {
        tools: vec![],
        prompts: vec![],
        resources: vec![
            resource("notes", "/srv/notes.txt"),
            resource("remote", "https://example.com/x"),
        ],
    });
    match s.handle_request(
        "{\"method\":\"resources/read\",\"id\":1,\"params\":{\"uri\":\"file://notes\"}}",
    ) {
        DispatchStep::ReadFile(p) => {
            assert_eq!(p.uri, "file://notes");
            assert_eq!(p.path, "/srv/notes.txt");
        }
        _ => panic!("expected a pending file read"),
    }
    match s.handle_request(
        "{\"method\":\"resources/read\",\"id\":1,\"params\":{\"uri\":\"remote\"}}",
    ) {
        DispatchStep::FetchUrl(p) => {
            assert_eq!(p.uri, "remote");
            assert_eq!(p.url, "https://example.com/x");
        }
        _ => panic!("expected a pending fetch"),
    }
}

#[test]
fn resources_read_unknown_name_is_application_error() {
    let s = server();
    let v = parse(&reply_of(s.handle_request(
        "{\"method\":\"resources/read\",\"id\":1,\"params\":{\"uri\":\"file://nope\"}}",
    )));
    assert_eq!(v["error"]["code"], serde_json::Value::from(-32000));
    assert_eq!(
        v["error"]["message"],
        serde_json::Value::from("Resource 'nope' not found")
    );
}

#[test]
fn resource_templates_list_is_empty() {
    let s = server();
    let line = reply_of(s.handle_request("{\"method\":\"resources/templates/list\",\"id\":2}"));
    assert_eq!(
        line,
        "{\"jsonrpc\":\"2.0\",\"id\":2,\"result\":{\"resourceTemplates\":[]}}"
    );
}

#[test]
fn reply_strings_are_escaped() {
    let s = MyCommandMCPServer::new(ConfigData {
        tools: vec![],
        prompts: vec![prompt("quoty", "line1\nline2 \"quoted\" \\slash\u{1}")],
        resources: vec![],
    });
    let line = reply_of(s.handle_request(
        "{\"method\":\"prompts/get\",\"id\":1,\"params\":{\"name\":\"quoty\"}}",
    ));
    assert!(line.contains("line1\\nline2 \\\"quoted\\\" \\\\slash\\u0001"));
    let v = parse(&line);
    assert_eq!(
        v["result"]["messages"][0]["content"]["text"],
        serde_json::Value::from("line1\nline2 \"quoted\" \\slash\u{1}")
    );
}
