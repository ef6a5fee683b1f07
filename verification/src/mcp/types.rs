//! The messages of the protocol.

use crate::json::{field, json_text, json_value, members_of, parse_json, print_json, text_field,
    Json, JsonV, Member, MemberV};
use crate::text::{chars_of, copy_str, parse_i64, push_str, signed_decimal, string_of};
use vstd::prelude::*;

verus! {

/// A request, or a notification where it has no id.
#[derive(Debug, Clone, PartialEq)]
pub struct JsonRpcRequest {
    pub jsonrpc: String,
    pub method: String,
    pub params: Option<Json>,
    pub id: Option<Json>,
}

/// The error that a response carries.
#[derive(Debug, Clone, PartialEq)]
pub struct JsonRpcError {
    pub code: i64,
    pub message: String,
    pub data: Option<Json>,
}

/// A response.
#[derive(Debug, Clone, PartialEq)]
pub struct JsonRpcResponse {
    pub jsonrpc: String,
    pub result: Option<Json>,
    pub error: Option<JsonRpcError>,
    pub id: Option<Json>,
}

/// The name and version of a client or of a server.
#[derive(Debug, Clone, PartialEq)]
pub struct ClientInfo {
    pub name: String,
    pub version: String,
}

/// What a client or a server is able to do, as it says itself.
#[derive(Debug, Clone, PartialEq)]
pub struct ClientCapabilities {
    pub roots: Option<Json>,
    pub sampling: Option<Json>,
}

/// The parameters of the opening request.
#[derive(Debug, Clone, PartialEq)]
pub struct InitializeParams {
    pub protocol_version: String,
    pub capabilities: ClientCapabilities,
    pub client_info: ClientInfo,
}

/// A tool as its server describes it.
#[derive(Debug, Clone, PartialEq)]
pub struct Tool {
    pub name: String,
    pub description: Option<String>,
    pub input_schema: Json,
}

/// The parameters of a tool call.
#[derive(Debug, Clone, PartialEq)]
pub struct CallToolParams {
    pub name: String,
    pub arguments: Json,
}

/// A resource that a tool hands back.
#[derive(Debug, Clone, PartialEq)]
pub struct Resource {
    pub uri: String,
    pub name: String,
    pub mime_type: Option<String>,
    pub text: Option<String>,
    pub blob: Option<String>,
}

/// One piece of what a tool hands back.
#[derive(Debug, Clone, PartialEq)]
pub enum ToolContent {
    Text { text: String },
    Image { data: String, mime_type: String },
    Resource { resource: Resource },
}

/// What a tool hands back.
#[derive(Debug, Clone, PartialEq)]
pub struct CallToolResult {
    pub content: Vec<ToolContent>,
    pub is_error: Option<bool>,
}

/// The value of an optional JSON value.
pub open spec fn optional_json(j: Option<Json>) -> Option<JsonV> {
    match j {
        Some(v) => Some(v@),
        None => None,
    }
}

/// An optional value as a member of a message: `null` where it is missing.
pub open spec fn or_null(j: Option<JsonV>) -> JsonV {
    match j {
        Some(v) => v,
        None => JsonV::Null,
    }
}

/// The JSON form of a request: its four members, in the order `jsonrpc`,
/// `method`, `params`, `id`.
pub open spec fn request_json(
    jsonrpc: Seq<char>,
    method: Seq<char>,
    params: Option<JsonV>,
    id: Option<JsonV>,
) -> JsonV {
    JsonV::Object(
        seq![
            MemberV { key: "jsonrpc"@, value: JsonV::Text(jsonrpc) },
            MemberV { key: "method"@, value: JsonV::Text(method) },
            MemberV { key: "params"@, value: or_null(params) },
            MemberV { key: "id"@, value: or_null(id) },
        ],
    )
}

fn json_or_null(j: &Option<Json>) -> (out: Json)
    ensures
        out@ == or_null(optional_json(*j)),
{
    match j {
        Some(v) => v.duplicate(),
        None => Json::Null,
    }
}

impl JsonRpcRequest {
    /// The JSON form of the request.
    pub fn to_json(&self) -> (out: Json)
        ensures
            out@ == request_json(
                self.jsonrpc@,
                self.method@,
                optional_json(self.params),
                optional_json(self.id),
            ),
    {
        let mut members: Vec<Member> = Vec::new();
        members.push(Member { key: copy_str("jsonrpc"), value: Json::Text(self.jsonrpc.clone()) });
        members.push(Member { key: copy_str("method"), value: Json::Text(self.method.clone()) });
        members.push(Member { key: copy_str("params"), value: json_or_null(&self.params) });
        members.push(Member { key: copy_str("id"), value: json_or_null(&self.id) });
        assert(members_of(members@) =~= request_json(
            self.jsonrpc@,
            self.method@,
            optional_json(self.params),
            optional_json(self.id),
        )->Object_0);
        Json::object(members)
    }

    /// The line that carries the request: its JSON text and a line feed.
    pub fn to_line(&self) -> (out: String)
        ensures
            out@ == json_text(
                request_json(
                    self.jsonrpc@,
                    self.method@,
                    optional_json(self.params),
                    optional_json(self.id),
                ),
            ) + "\n"@,
    {
        let text = print_json(&self.to_json());
        let mut buf = chars_of(text.as_str());
        push_str(&mut buf, "\n");
        string_of(&buf)
    }

    /// Whether the message is a notification: it has no id, so no response
    /// is due.
    pub fn is_notification(&self) -> (out: bool)
        ensures
            out == (self.id is None),
    {
        self.id.is_none()
    }
}

/// The mathematical value of a [`JsonRpcError`].
pub struct ErrorV {
    pub code: i64,
    pub message: Seq<char>,
    pub data: Option<JsonV>,
}

/// The mathematical value of a [`JsonRpcResponse`].
pub struct ResponseV {
    pub jsonrpc: Seq<char>,
    pub result: Option<JsonV>,
    pub error: Option<ErrorV>,
    pub id: Option<JsonV>,
}

impl View for JsonRpcError {
    type V = ErrorV;

    open spec fn view(&self) -> ErrorV {
        ErrorV { code: self.code, message: self.message@, data: optional_json(self.data) }
    }
}

impl View for JsonRpcResponse {
    type V = ResponseV;

    open spec fn view(&self) -> ResponseV {
        ResponseV {
            jsonrpc: self.jsonrpc@,
            result: optional_json(self.result),
            error: match self.error {
                Some(e) => Some(e@),
                None => None,
            },
            id: optional_json(self.id),
        }
    }
}

/// A member that may be missing: a missing member and `null` are both
/// nothing.
pub open spec fn optional_field(v: JsonV, key: Seq<char>) -> Option<JsonV> {
    match field(v, key) {
        Some(JsonV::Null) => None,
        other => other,
    }
}

/// The 64-bit integer that a member writes, if it writes one.
pub open spec fn int_field(v: JsonV, key: Seq<char>) -> Option<i64> {
    match field(v, key) {
        Some(JsonV::Number(t)) => if exists|n: i64| t == signed_decimal(n as int) {
            Some(choose|n: i64| t == signed_decimal(n as int))
        } else {
            None
        },
        _ => None,
    }
}

/// The error that a JSON value describes: an object with a whole number as
/// `code` and a text as `message`.
pub open spec fn error_of(v: JsonV) -> Option<ErrorV> {
    match (int_field(v, "code"@), text_field(v, "message"@)) {
        (Some(code), Some(message)) => Some(
            ErrorV { code, message, data: optional_field(v, "data"@) },
        ),
        _ => None,
    }
}

/// The response that a JSON value describes: an object with a text as
/// `jsonrpc`; `result`, `error` and `id` may be missing, but an error that
/// is there must be well formed.
pub open spec fn response_of(v: JsonV) -> Option<ResponseV> {
    match text_field(v, "jsonrpc"@) {
        None => None,
        Some(jsonrpc) => match optional_field(v, "error"@) {
            None => Some(
                ResponseV {
                    jsonrpc,
                    result: optional_field(v, "result"@),
                    error: None,
                    id: optional_field(v, "id"@),
                },
            ),
            Some(e) => match error_of(e) {
                Some(error) => Some(
                    ResponseV {
                        jsonrpc,
                        result: optional_field(v, "result"@),
                        error: Some(error),
                        id: optional_field(v, "id"@),
                    },
                ),
                None => None,
            },
        },
    }
}

/// The response that a line carries, if it carries one.
pub open spec fn response_in(line: Seq<char>) -> Option<ResponseV> {
    match json_value(line) {
        Some(v) => response_of(v),
        None => None,
    }
}

fn optional_member(j: &Json, key: &str) -> (out: Option<Json>)
    ensures
        optional_json(out) == optional_field(j@, key@),
{
    match j.get(key) {
        Some(Json::Null) => None,
        Some(v) => Some(v.duplicate()),
        None => None,
    }
}

fn int_member(j: &Json, key: &str) -> (out: Option<i64>)
    ensures
        out == int_field(j@, key@),
{
    match j.get(key) {
        Some(Json::Number(t)) => match parse_i64(&chars_of(t.as_str())) {
            Some(n) => {
                proof {
                    let w = choose|m: i64| t@ == signed_decimal(m as int);
                    crate::text::lemma_signed_decimal_injective(n as int, w as int);
                }
                Some(n)
            },
            None => None,
        },
        _ => None,
    }
}

impl JsonRpcError {
    /// Reads an error from a JSON value.
    pub fn from_json(j: &Json) -> (out: Option<JsonRpcError>)
        ensures
            match out {
                Some(e) => error_of(j@) == Some(e@),
                None => error_of(j@) is None,
            },
    {
        match (int_member(j, "code"), j.text_at("message")) {
            (Some(code), Some(message)) => Some(
                JsonRpcError { code, message: message.clone(), data: optional_member(j, "data") },
            ),
            _ => None,
        }
    }
}

impl JsonRpcResponse {
    /// Reads a response from a JSON value.
    pub fn from_json(j: &Json) -> (out: Option<JsonRpcResponse>)
        ensures
            match out {
                Some(r) => response_of(j@) == Some(r@),
                None => response_of(j@) is None,
            },
    {
        let jsonrpc = match j.text_at("jsonrpc") {
            Some(t) => t.clone(),
            None => {
                return None;
            },
        };
        let error = match optional_member(j, "error") {
            None => None,
            Some(e) => match JsonRpcError::from_json(&e) {
                Some(error) => Some(error),
                None => {
                    return None;
                },
            },
        };
        Some(
            JsonRpcResponse {
                jsonrpc,
                result: optional_member(j, "result"),
                error,
                id: optional_member(j, "id"),
            },
        )
    }

    /// Reads a response from the line that carries it.
    pub fn from_line(line: &str) -> (out: Option<JsonRpcResponse>)
        ensures
            match out {
                Some(r) => response_in(line@) == Some(r@),
                None => response_in(line@) is None,
            },
    {
        match parse_json(line) {
            Some(j) => JsonRpcResponse::from_json(&j),
            None => None,
        }
    }
}

} // verus!
