//! The client's side of the protocol: the requests it sends and what it
//! makes of the responses.

use crate::json::{field, members_of, object2, text_field, values, Json, JsonV, Member, MemberV};
use crate::mcp::types::{optional_field, optional_json, ClientCapabilities, ClientInfo,
    JsonRpcRequest, JsonRpcResponse, ResponseV, Tool};
use crate::session::fresh_id;
use crate::text::{chars_of, copy_str, push_str, string_of};
use vstd::prelude::*;

verus! {

/// The version of the protocol that the client speaks.
pub const PROTOCOL_VERSION: &'static str = "2024-11-05";

/// How long the opening handshake with one server may take, in seconds.
pub const INIT_TIMEOUT_SECS: u64 = 5;

/// The name under which the client presents itself.
pub const CLIENT_NAME: &'static str = "sly-mcp-client";

/// The version under which the client presents itself.
pub const CLIENT_VERSION: &'static str = "0.1.0";

/// Why an exchange with a tool server failed.
#[derive(Debug, Clone, PartialEq)]
pub enum McpError {
    /// The server answered the opening request with an error.
    Initialize { message: String },
    /// The server's answer to the opening request lacks a part.
    Missing { part: String },
    /// The server gave neither a result nor an error.
    Unexpected,
    /// The server answered a tool call with an error.
    ToolCall { message: String },
    /// The server gave no result for a tool call.
    NoResult,
    /// The list of tools holds what is no tool.
    InvalidTool,
    /// No server has a tool of this name.
    ToolNotFound { name: String },
}

/// The mathematical value of an [`McpError`].
pub enum McpErrorV {
    Initialize { message: Seq<char> },
    Missing { part: Seq<char> },
    Unexpected,
    ToolCall { message: Seq<char> },
    NoResult,
    InvalidTool,
    ToolNotFound { name: Seq<char> },
}

impl View for McpError {
    type V = McpErrorV;

    open spec fn view(&self) -> McpErrorV {
        match self {
            McpError::Initialize { message } => McpErrorV::Initialize { message: message@ },
            McpError::Missing { part } => McpErrorV::Missing { part: part@ },
            McpError::Unexpected => McpErrorV::Unexpected,
            McpError::ToolCall { message } => McpErrorV::ToolCall { message: message@ },
            McpError::NoResult => McpErrorV::NoResult,
            McpError::InvalidTool => McpErrorV::InvalidTool,
            McpError::ToolNotFound { name } => McpErrorV::ToolNotFound { name: name@ },
        }
    }
}

/// The text of an error.
pub open spec fn error_text(e: McpErrorV) -> Seq<char> {
    match e {
        McpErrorV::Initialize { message } => "MCP Initialize Error: "@ + message,
        McpErrorV::Missing { part } => "Missing "@ + part + " in initialize response"@,
        McpErrorV::Unexpected => "MCP Initialize unexpected response or timeout"@,
        McpErrorV::ToolCall { message } => "Tool Call Error: "@ + message,
        McpErrorV::NoResult => "Tool call returned no result"@,
        McpErrorV::InvalidTool => "Invalid tool in tool list"@,
        McpErrorV::ToolNotFound { name } => "Tool not found: "@ + name,
    }
}

fn concat3(a: &str, b: &str, c: &str) -> (out: String)
    ensures
        out@ == a@ + b@ + c@,
{
    let mut buf = chars_of(a);
    push_str(&mut buf, b);
    push_str(&mut buf, c);
    string_of(&buf)
}

impl McpError {
    /// The text of the error.
    pub fn message(&self) -> (out: String)
        ensures
            out@ == error_text(self@),
    {
        proof {
            reveal_strlit("");
        }
        match self {
            McpError::Initialize { message } => {
                let out = concat3("MCP Initialize Error: ", message.as_str(), "");
                assert(out@ =~= "MCP Initialize Error: "@ + message@);
                out
            },
            McpError::Missing { part } => concat3(
                "Missing ",
                part.as_str(),
                " in initialize response",
            ),
            McpError::Unexpected => copy_str("MCP Initialize unexpected response or timeout"),
            McpError::ToolCall { message } => {
                let out = concat3("Tool Call Error: ", message.as_str(), "");
                assert(out@ =~= "Tool Call Error: "@ + message@);
                out
            },
            McpError::NoResult => copy_str("Tool call returned no result"),
            McpError::InvalidTool => copy_str("Invalid tool in tool list"),
            McpError::ToolNotFound { name } => {
                let out = concat3("Tool not found: ", name.as_str(), "");
                assert(out@ =~= "Tool not found: "@ + name@);
                out
            },
        }
    }
}

/// The parameters of the opening request: the version of the protocol, what
/// the client can do, and who it is.
pub open spec fn initialize_params() -> JsonV {
    JsonV::Object(
        seq![
            MemberV { key: "protocolVersion"@, value: JsonV::Text(PROTOCOL_VERSION@) },
            MemberV {
                key: "capabilities"@,
                value: object2("roots"@, JsonV::Object(Seq::empty()), "sampling"@, JsonV::Null),
            },
            MemberV {
                key: "clientInfo"@,
                value: object2(
                    "name"@,
                    JsonV::Text(CLIENT_NAME@),
                    "version"@,
                    JsonV::Text(CLIENT_VERSION@),
                ),
            },
        ],
    )
}

/// The value of a request.
pub open spec fn request_view(r: JsonRpcRequest) -> (
    Seq<char>,
    Seq<char>,
    Option<JsonV>,
    Option<JsonV>,
) {
    (r.jsonrpc@, r.method@, optional_json(r.params), optional_json(r.id))
}

fn request(method: &str, params: Option<Json>, id: Option<Json>) -> (out: JsonRpcRequest)
    ensures
        request_view(out) == ("2.0"@, method@, optional_json(params), optional_json(id)),
{
    JsonRpcRequest { jsonrpc: copy_str("2.0"), method: copy_str(method), params, id }
}

fn number(text: &str) -> (out: Json)
    ensures
        out@ == JsonV::Number(text@),
{
    Json::Number(copy_str(text))
}

/// The opening request, with the id 1.
pub fn initialize_request() -> (out: JsonRpcRequest)
    ensures
        request_view(out) == (
            "2.0"@,
            "initialize"@,
            Some(initialize_params()),
            Some(JsonV::Number("1"@)),
        ),
{
    let mut members: Vec<Member> = Vec::new();
    members.push(Member { key: copy_str("protocolVersion"), value: Json::text(PROTOCOL_VERSION) });
    members.push(
        Member {
            key: copy_str("capabilities"),
            value: Json::object_of2("roots", Json::empty_object(), "sampling", Json::Null),
        },
    );
    members.push(
        Member {
            key: copy_str("clientInfo"),
            value: Json::object_of2(
                "name",
                Json::text(CLIENT_NAME),
                "version",
                Json::text(CLIENT_VERSION),
            ),
        },
    );
    assert(members_of(members@) =~= initialize_params()->Object_0);
    request("initialize", Some(Json::object(members)), Some(number("1")))
}

/// The notification that closes the handshake. It has no id.
pub fn initialized_notification() -> (out: JsonRpcRequest)
    ensures
        request_view(out) == (
            "2.0"@,
            "notifications/initialized"@,
            None::<JsonV>,
            None::<JsonV>,
        ),
{
    request("notifications/initialized", None, None)
}

/// The request for the list of tools, with the id 2.
pub fn list_tools_request() -> (out: JsonRpcRequest)
    ensures
        request_view(out) == ("2.0"@, "tools/list"@, None::<JsonV>, Some(JsonV::Number("2"@))),
{
    request("tools/list", None, Some(number("2")))
}

/// The call of a tool under a given id.
pub fn call_tool_request_with_id(name: &str, args: Json, id: String) -> (out: JsonRpcRequest)
    ensures
        request_view(out) == (
            "2.0"@,
            "tools/call"@,
            Some(object2("arguments"@, args@, "name"@, JsonV::Text(name@))),
            Some(JsonV::Text(id@)),
        ),
{
    request(
        "tools/call",
        Some(Json::object_of2("arguments", args, "name", Json::text(name))),
        Some(Json::Text(id)),
    )
}

/// The call of a tool, under a fresh id.
pub fn call_tool_request(name: &str, args: Json) -> (out: JsonRpcRequest)
    ensures
        out.jsonrpc@ == "2.0"@,
        out.method@ == "tools/call"@,
        optional_json(out.params) == Some(
            object2("arguments"@, args@, "name"@, JsonV::Text(name@)),
        ),
        out.id matches Some(Json::Text(id)) && id@.len() == 36,
{
    call_tool_request_with_id(name, args, fresh_id())
}

/// What a server says of itself when the handshake succeeds.
#[derive(Debug, Clone, PartialEq)]
pub struct ServerHello {
    pub info: ClientInfo,
    pub capabilities: ClientCapabilities,
}

/// The name and version that a JSON value gives; both must be texts.
pub open spec fn info_of(v: JsonV) -> Option<(Seq<char>, Seq<char>)> {
    match (text_field(v, "name"@), text_field(v, "version"@)) {
        (Some(name), Some(version)) => Some((name, version)),
        _ => None,
    }
}

/// What the handshake gives for a response: an error where the response
/// carries one; the server's name, version and capabilities where it carries
/// a result that has them; an error for anything else.
pub open spec fn hello_of(response: ResponseV) -> Result<
    ((Seq<char>, Seq<char>), (Option<JsonV>, Option<JsonV>)),
    McpErrorV,
> {
    match response.error {
        Some(e) => Err(McpErrorV::Initialize { message: e.message }),
        None => match response.result {
            None => Err(McpErrorV::Unexpected),
            Some(result) => match field(result, "serverInfo"@) {
                None => Err(McpErrorV::Missing { part: "serverInfo"@ }),
                Some(info) => match info_of(info) {
                    None => Err(McpErrorV::Missing { part: "serverInfo"@ }),
                    Some(who) => match field(result, "capabilities"@) {
                        Some(JsonV::Object(members)) => Ok(
                            (
                                who,
                                (
                                    optional_field(JsonV::Object(members), "roots"@),
                                    optional_field(JsonV::Object(members), "sampling"@),
                                ),
                            ),
                        ),
                        _ => Err(McpErrorV::Missing { part: "capabilities"@ }),
                    },
                },
            },
        },
    }
}

/// The value of what a server says of itself.
pub open spec fn hello_view(h: ServerHello) -> (
    (Seq<char>, Seq<char>),
    (Option<JsonV>, Option<JsonV>),
) {
    (
        (h.info.name@, h.info.version@),
        (optional_json(h.capabilities.roots), optional_json(h.capabilities.sampling)),
    )
}

fn optional_member(j: &Json, key: &str) -> (out: Option<Json>)
    ensures
        optional_json(out) == optional_field(j@, key@),
{
    match j.get(key) {
        Some(Json::Null) => None,
        Some(v) => Some(v.duplicate()),
        None => None,
    }
}

/// Reads the response to the opening request. On success the closing
/// notification is due; on failure the server is given up.
pub fn read_initialize(response: &JsonRpcResponse) -> (out: Result<ServerHello, McpError>)
    ensures
        match out {
            Ok(h) => hello_of(response@) == Ok::<_, McpErrorV>(hello_view(h)),
            Err(e) => hello_of(response@) == Err::<
                ((Seq<char>, Seq<char>), (Option<JsonV>, Option<JsonV>)),
                _,
            >(e@),
        },
{
    if let Some(e) = &response.error {
        return Err(McpError::Initialize { message: e.message.clone() });
    }
    let result = match &response.result {
        Some(r) => r,
        None => {
            return Err(McpError::Unexpected);
        },
    };
    let info = match result.get("serverInfo") {
        Some(i) => i,
        None => {
            return Err(McpError::Missing { part: copy_str("serverInfo") });
        },
    };
    let who = match (info.text_at("name"), info.text_at("version")) {
        (Some(name), Some(version)) => ClientInfo { name: name.clone(), version: version.clone() },
        _ => {
            return Err(McpError::Missing { part: copy_str("serverInfo") });
        },
    };
    match result.get("capabilities") {
        Some(caps) => match caps {
            Json::Object(_) => Ok(
                ServerHello {
                    info: who,
                    capabilities: ClientCapabilities {
                        roots: optional_member(caps, "roots"),
                        sampling: optional_member(caps, "sampling"),
                    },
                },
            ),
            _ => Err(McpError::Missing { part: copy_str("capabilities") }),
        },
        None => Err(McpError::Missing { part: copy_str("capabilities") }),
    }
}

/// What a tool call gives for a response: the error of the response where
/// it carries one, else its result, else an error.
pub open spec fn call_result_of(response: ResponseV) -> Result<JsonV, McpErrorV> {
    match response.error {
        Some(e) => Err(McpErrorV::ToolCall { message: e.message }),
        None => match response.result {
            Some(result) => Ok(result),
            None => Err(McpErrorV::NoResult),
        },
    }
}

/// Reads the response to a tool call.
pub fn read_call_result(response: &JsonRpcResponse) -> (out: Result<Json, McpError>)
    ensures
        match out {
            Ok(j) => call_result_of(response@) == Ok::<_, McpErrorV>(j@),
            Err(e) => call_result_of(response@) == Err::<JsonV, _>(e@),
        },
{
    if let Some(e) = &response.error {
        return Err(McpError::ToolCall { message: e.message.clone() });
    }
    match &response.result {
        Some(result) => Ok(result.duplicate()),
        None => Err(McpError::NoResult),
    }
}

/// The mathematical value of a [`Tool`].
pub struct ToolV {
    pub name: Seq<char>,
    pub description: Option<Seq<char>>,
    pub input_schema: JsonV,
}

impl View for Tool {
    type V = ToolV;

    open spec fn view(&self) -> ToolV {
        ToolV {
            name: self.name@,
            description: match self.description {
                Some(d) => Some(d@),
                None => None,
            },
            input_schema: self.input_schema@,
        }
    }
}

/// The values of a list of tools.
pub open spec fn tool_views(tools: Seq<Tool>) -> Seq<ToolV> {
    tools.map_values(|t: Tool| t@)
}

/// The tool that a JSON value describes: an object with a text as `name`.
/// Its description is the text under `description`, if there is one; its
/// schema is what stands under `inputSchema`, or `null`.
pub open spec fn tool_of(v: JsonV) -> Option<ToolV> {
    match text_field(v, "name"@) {
        Some(name) => Some(
            ToolV {
                name,
                description: text_field(v, "description"@),
                input_schema: match field(v, "inputSchema"@) {
                    Some(schema) => schema,
                    None => JsonV::Null,
                },
            },
        ),
        None => None,
    }
}

/// The tools that a response lists: those under `tools` in its result, if
/// every one of them is a tool; none where the response has no result or
/// the result no list.
pub open spec fn tools_of(response: ResponseV) -> Result<Seq<ToolV>, McpErrorV> {
    match response.result {
        Some(result) => match field(result, "tools"@) {
            Some(JsonV::Array(items)) => if forall|i: int|
                0 <= i < items.len() ==> tool_of(#[trigger] items[i]) is Some {
                Ok(Seq::new(items.len(), |i: int| tool_of(items[i])->0))
            } else {
                Err(McpErrorV::InvalidTool)
            },
            _ => Ok(seq![]),
        },
        None => Ok(seq![]),
    }
}

impl Tool {
    /// Reads a tool from a JSON value.
    pub fn from_json(j: &Json) -> (out: Option<Tool>)
        ensures
            match out {
                Some(t) => tool_of(j@) == Some(t@),
                None => tool_of(j@) is None,
            },
    {
        match j.text_at("name") {
            Some(name) => Some(
                Tool {
                    name: name.clone(),
                    description: match j.text_at("description") {
                        Some(d) => Some(d.clone()),
                        None => None,
                    },
                    input_schema: match j.get("inputSchema") {
                        Some(schema) => schema.duplicate(),
                        None => Json::Null,
                    },
                },
            ),
            None => None,
        }
    }
}

/// Reads the response to the request for the list of tools.
pub fn read_tools(response: &JsonRpcResponse) -> (out: Result<Vec<Tool>, McpError>)
    ensures
        match out {
            Ok(tools) => tools_of(response@) == Ok::<_, McpErrorV>(tool_views(tools@)),
            Err(e) => tools_of(response@) == Err::<Seq<ToolV>, _>(e@),
        },
{
    let mut tools: Vec<Tool> = Vec::new();
    assert(tool_views(tools@) =~= Seq::<ToolV>::empty());
    let result = match &response.result {
        Some(r) => r,
        None => {
            return Ok(tools);
        },
    };
    let items = match result.get("tools") {
        Some(list) => match list.as_items() {
            Some(items) => items,
            None => {
                return Ok(tools);
            },
        },
        None => {
            return Ok(tools);
        },
    };
    let ghost all = values(items@);
    let mut i: usize = 0;
    while i < items.len()
        invariant
            i <= items.len(),
            all == values(items@),
            response@.result == Some(result@),
            field(result@, "tools"@) == Some(JsonV::Array(all)),
            tools@.len() == i,
            forall|k: int| 0 <= k < i ==> tool_of(#[trigger] all[k]) == Some(tools@[k]@),
        decreases items.len() - i,
    {
        assert(all[i as int] == items@[i as int]@);
        match Tool::from_json(&items[i]) {
            Some(t) => {
                tools.push(t);
            },
            None => {
                assert(tool_of(all[i as int]) is None);
                return Err(McpError::InvalidTool);
            },
        }
        i += 1;
    }
    assert(tools_of(response@)->Ok_0 =~= tool_views(tools@));
    Ok(tools)
}

} // verus!
