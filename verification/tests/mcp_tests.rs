use sly::config::{McpServerConfig, NamedServer, SlyConfig, SlyRole};
use sly::json::{Json, Member};
use sly::mcp::client::{call_tool_request, call_tool_request_with_id, initialize_request,
    initialized_notification, list_tools_request, read_call_result, read_initialize, read_tools,
    McpError};
use sly::mcp::registry::{add_server_tools, find_tool, get_tool_definitions, McpToolMetadata};
use sly::mcp::types::{JsonRpcRequest, JsonRpcResponse};

fn object(members: Vec<(&str, Json)>) -> Json {
    Json::Object(
        members.into_iter().map(|(k, v)| Member { key: k.to_string(), value: v }).collect(),
    )
}

fn s(text: &str) -> Json {
    Json::Text(text.to_string())
}

#[test]
fn initialize_request_carries_the_protocol_version() {
    let r = initialize_request();
    assert_eq!(r.method, "initialize");
    assert_eq!(r.id, Some(Json::Number("1".to_string())));
    let params = r.params.clone().expect("params");
    assert_eq!(params.get("protocolVersion"), Some(&s("2024-11-05")));
    assert_eq!(
        params.get("clientInfo"),
        Some(&object(vec![("name", s("sly-mcp-client")), ("version", s("0.1.0"))]))
    );
    assert!(params.get("capabilities").is_some());
    let line = r.to_line();
    assert!(line.ends_with("}\n"));
    assert_eq!(line.matches('\n').count(), 1);
    let back: serde_json::Value = serde_json::from_str(&line).expect("json");
    assert_eq!(back["jsonrpc"], "2.0");
    assert_eq!(back["id"], 1);
    assert_eq!(back["params"]["protocolVersion"], "2024-11-05");
}

#[test]
fn notification_has_no_id() {
    let n = initialized_notification();
    assert!(n.is_notification());
    assert_eq!(n.method, "notifications/initialized");
    let back: serde_json::Value = serde_json::from_str(&n.to_line()).expect("json");
    assert!(back["id"].is_null());
    assert!(!list_tools_request().is_notification());
    assert_eq!(list_tools_request().method, "tools/list");
}

#[test]
fn tool_call_names_the_tool_and_its_arguments() {
    let r = call_tool_request_with_id("list_files", object(vec![("path", s("."))]), "id-7".to_string());
    assert_eq!(
        r,
        JsonRpcRequest {
            jsonrpc: "2.0".to_string(),
            method: "tools/call".to_string(),
            params: Some(object(vec![
                ("arguments", object(vec![("path", s("."))])),
                ("name", s("list_files")),
            ])),
            id: Some(s("id-7")),
        }
    );
    let a = call_tool_request("t", Json::Null);
    let b = call_tool_request("t", Json::Null);
    assert_ne!(a.id, b.id);
}

#[test]
fn responses_are_read_from_lines() {
    let ok = JsonRpcResponse::from_line("{\"jsonrpc\":\"2.0\",\"result\":{\"x\":1},\"id\":1}\n").expect("response");
    assert_eq!(ok.result, Some(object(vec![("x", Json::Number("1".to_string()))])));
    assert_eq!(ok.error, None);
    assert_eq!(read_call_result(&ok), Ok(object(vec![("x", Json::Number("1".to_string()))])));
    let err = JsonRpcResponse::from_line(
        "{\"jsonrpc\":\"2.0\",\"error\":{\"code\":-32601,\"message\":\"no such tool\"},\"id\":\"a\"}",
    )
    .expect("response");
    assert_eq!(err.error.as_ref().map(|e| e.code), Some(-32601));
    let failure = read_call_result(&err).err().expect("error");
    assert_eq!(failure, McpError::ToolCall { message: "no such tool".to_string() });
    assert_eq!(failure.message(), "Tool Call Error: no such tool");
    let empty = JsonRpcResponse::from_line("{\"jsonrpc\":\"2.0\",\"id\":1}").expect("response");
    assert_eq!(read_call_result(&empty), Err(McpError::NoResult));
    assert_eq!(McpError::NoResult.message(), "Tool call returned no result");
    assert!(JsonRpcResponse::from_line("not json").is_none());
    assert!(JsonRpcResponse::from_line("{\"result\":1}").is_none());
    assert!(JsonRpcResponse::from_line("{\"jsonrpc\":\"2.0\",\"error\":{\"code\":\"x\"}}").is_none());
}

#[test]
fn handshake_succeeds_or_gives_the_server_up() {
    let hello = JsonRpcResponse::from_line(
        "{\"jsonrpc\":\"2.0\",\"id\":1,\"result\":{\"serverInfo\":{\"name\":\"fs\",\"version\":\"1.2\"},\"capabilities\":{\"roots\":{\"a\":1}}}}",
    )
    .expect("response");
    let h = read_initialize(&hello).expect("hello");
    assert_eq!(h.info.name, "fs");
    assert_eq!(h.info.version, "1.2");
    assert_eq!(h.capabilities.roots, Some(object(vec![("a", Json::Number("1".to_string()))])));
    assert_eq!(h.capabilities.sampling, None);

    let refused = JsonRpcResponse::from_line(
        "{\"jsonrpc\":\"2.0\",\"id\":1,\"error\":{\"code\":1,\"message\":\"old client\"}}",
    )
    .expect("response");
    let e = read_initialize(&refused).err().expect("error");
    assert_eq!(e.message(), "MCP Initialize Error: old client");

    let bare = JsonRpcResponse::from_line("{\"jsonrpc\":\"2.0\",\"id\":1,\"result\":{}}").expect("response");
    assert_eq!(
        read_initialize(&bare).err().map(|e| e.message()),
        Some("Missing serverInfo in initialize response".to_string())
    );
    let half = JsonRpcResponse::from_line(
        "{\"jsonrpc\":\"2.0\",\"id\":1,\"result\":{\"serverInfo\":{\"name\":\"fs\",\"version\":\"1\"}}}",
    )
    .expect("response");
    assert_eq!(
        read_initialize(&half).err().map(|e| e.message()),
        Some("Missing capabilities in initialize response".to_string())
    );
    let nothing = JsonRpcResponse::from_line("{\"jsonrpc\":\"2.0\",\"id\":1}").expect("response");
    assert_eq!(
        read_initialize(&nothing).err().map(|e| e.message()),
        Some("MCP Initialize unexpected response or timeout".to_string())
    );
}

#[test]
fn tools_are_listed_and_found() {
    let listing = JsonRpcResponse::from_line(
        "{\"jsonrpc\":\"2.0\",\"id\":2,\"result\":{\"tools\":[{\"name\":\"read\",\"description\":\"Reads\",\"inputSchema\":{\"type\":\"object\"}},{\"name\":\"write\"}]}}",
    )
    .expect("response");
    let tools = read_tools(&listing).expect("tools");
    assert_eq!(tools.len(), 2);
    assert_eq!(tools[0].name, "read");
    assert_eq!(tools[0].description, Some("Reads".to_string()));
    assert_eq!(tools[0].input_schema, object(vec![("type", s("object"))]));
    assert_eq!(tools[1].description, None);
    assert_eq!(tools[1].input_schema, Json::Null);

    let mut registry: Vec<McpToolMetadata> = Vec::new();
    add_server_tools(&mut registry, "files", &tools);
    add_server_tools(&mut registry, "other", &tools);
    assert_eq!(registry.len(), 4);
    let owner = find_tool(&registry, "write").expect("found");
    assert_eq!(owner.server_name, "files");
    let missing = find_tool(&registry, "delete").err().expect("missing");
    assert_eq!(missing.message(), "Tool not found: delete");

    let none = JsonRpcResponse::from_line("{\"jsonrpc\":\"2.0\",\"id\":2,\"result\":{}}").expect("response");
    assert_eq!(read_tools(&none), Ok(vec![]));
    let bad = JsonRpcResponse::from_line("{\"jsonrpc\":\"2.0\",\"id\":2,\"result\":{\"tools\":[{\"title\":1}]}}")
        .expect("response");
    assert_eq!(read_tools(&bad), Err(McpError::InvalidTool));
}

#[test]
fn tool_definitions_are_a_fenced_listing() {
    assert_eq!(get_tool_definitions(&vec![]), "");
    let registry = vec![McpToolMetadata { name: "read".to_string(), server_name: "files".to_string() }];
    let text = get_tool_definitions(&registry);
    assert_eq!(
        text,
        "\n## AVAILABLE MCP TOOLS\n\nYou have access to the following external tools:\n```json\n[\n  {\n    \"name\": \"read\",\n    \"server\": \"files\"\n  }\n]\n```\n"
    );
}

#[test]
fn default_config_caps_at_fifty_loops() {
    let c = SlyConfig::default();
    assert_eq!(c.max_autonomous_loops, 50);
    assert!(!c.autonomous_mode);
    assert_eq!(c.role, SlyRole::Executor);
    assert!(c.mcp_servers.is_empty());
    assert_eq!(c.project_name, "sly");
}

#[test]
fn config_is_read_from_toml() {
    let text = r#"
project_name = "demo"
primary_model = "big"
fallback_model = "small"
autonomous_mode = true
max_autonomous_loops = 3
role = "supervisor"

[mcp_servers.files]
command = "mcp-files"
args = ["--root", "."]
"#;
    let c = SlyConfig::load(text);
    assert_eq!(
        c,
        SlyConfig {
            project_name: "demo".to_string(),
            primary_model: "big".to_string(),
            fallback_model: "small".to_string(),
            autonomous_mode: true,
            max_autonomous_loops: 3,
            role: SlyRole::Supervisor,
            mcp_servers: vec![NamedServer {
                name: "files".to_string(),
                config: McpServerConfig {
                    command: "mcp-files".to_string(),
                    args: vec!["--root".to_string(), ".".to_string()],
                },
            }],
        }
    );
    let minimal = SlyConfig::load("project_name = \"p\"\nprimary_model = \"a\"\nfallback_model = \"b\"\n");
    assert_eq!(minimal.max_autonomous_loops, 50);
    assert!(!minimal.autonomous_mode);
    assert_eq!(minimal.role, SlyRole::Executor);
    assert_eq!(minimal.project_name, "p");
}

#[test]
fn unreadable_config_falls_back_to_the_default() {
    assert_eq!(SlyConfig::load("this is = = not toml"), SlyConfig::default());
    assert_eq!(SlyConfig::load("project_name = \"only\""), SlyConfig::default());
    assert_eq!(
        SlyConfig::load("project_name = \"p\"\nprimary_model = \"a\"\nfallback_model = \"b\"\nrole = \"king\"\n"),
        SlyConfig::default()
    );
    assert_eq!(
        SlyConfig::load("project_name = \"p\"\nprimary_model = \"a\"\nfallback_model = \"b\"\nmax_autonomous_loops = -1\n"),
        SlyConfig::default()
    );
}
