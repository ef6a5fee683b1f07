//! The registry of tools: which server owns which tool, and how the tools
//! are presented to the reasoner.

use crate::json::{json_pretty, object2, print_json_pretty, values, Json, JsonV};
use crate::mcp::client::{McpError, McpErrorV, tool_views};
use crate::mcp::types::Tool;
use crate::text::{chars_of, copy_str, push_str, str_eq, string_of};
use vstd::prelude::*;

verus! {

/// A tool and the server that owns it.
#[derive(Debug, Clone, PartialEq)]
pub struct McpToolMetadata {
    pub name: String,
    pub server_name: String,
}

/// The mathematical value of an [`McpToolMetadata`].
pub struct MetadataV {
    pub name: Seq<char>,
    pub server_name: Seq<char>,
}

impl View for McpToolMetadata {
    type V = MetadataV;

    open spec fn view(&self) -> MetadataV {
        MetadataV { name: self.name@, server_name: self.server_name@ }
    }
}

/// The values of a list of tools with their servers.
pub open spec fn metadata_views(list: Seq<McpToolMetadata>) -> Seq<MetadataV> {
    list.map_values(|m: McpToolMetadata| m@)
}

/// Adds the tools of one server to the registry, in the order in which the
/// server listed them.
pub fn add_server_tools(metadata: &mut Vec<McpToolMetadata>, server_name: &str, tools: &Vec<Tool>)
    ensures
        metadata_views(final(metadata)@) == metadata_views(old(metadata)@) + tool_views(
            tools@,
        ).map_values(
            |t: crate::mcp::client::ToolV| MetadataV { name: t.name, server_name: server_name@ },
        ),
{
    let ghost start = metadata_views(metadata@);
    let ghost wanted = tool_views(tools@).map_values(
        |t: crate::mcp::client::ToolV| MetadataV { name: t.name, server_name: server_name@ },
    );
    let mut i: usize = 0;
    assert(start + wanted.take(0) =~= start);
    while i < tools.len()
        invariant
            i <= tools.len(),
            wanted == tool_views(tools@).map_values(
                |t: crate::mcp::client::ToolV|
                    MetadataV { name: t.name, server_name: server_name@ },
            ),
            metadata_views(metadata@) == start + wanted.take(i as int),
        decreases tools.len() - i,
    {
        let entry = McpToolMetadata {
            name: tools[i].name.clone(),
            server_name: copy_str(server_name),
        };
        let ghost before = metadata_views(metadata@);
        metadata.push(entry);
        assert(metadata_views(metadata@) =~= before.push(entry@));
        assert(wanted.take(i + 1) =~= wanted.take(i as int).push(entry@));
        assert(start + wanted.take(i + 1) =~= (start + wanted.take(i as int)).push(entry@));
        i += 1;
    }
    assert(wanted.take(tools.len() as int) =~= wanted);
}

/// The index of the first tool of this name, if there is one.
pub open spec fn first_named(list: Seq<MetadataV>, name: Seq<char>, i: int) -> Option<int>
    decreases list.len() - i,
{
    if i < 0 || i >= list.len() {
        None
    } else if list[i].name == name {
        Some(i)
    } else {
        first_named(list, name, i + 1)
    }
}

/// Finds the server that owns a tool: the first in the registry that lists
/// a tool of this name.
pub fn find_tool<'a>(metadata: &'a Vec<McpToolMetadata>, tool_name: &str) -> (out: Result<
    &'a McpToolMetadata,
    McpError,
>)
    ensures
        match out {
            Ok(m) => first_named(metadata_views(metadata@), tool_name@, 0) matches Some(i)
                && 0 <= i < metadata@.len() && *m == metadata@[i],
            Err(e) => first_named(metadata_views(metadata@), tool_name@, 0) is None && e@
                == (McpErrorV::ToolNotFound { name: tool_name@ }),
        },
{
    let ghost all = metadata_views(metadata@);
    let mut i: usize = 0;
    while i < metadata.len()
        invariant
            i <= metadata.len(),
            all == metadata_views(metadata@),
            first_named(all, tool_name@, 0) == first_named(all, tool_name@, i as int),
        decreases metadata.len() - i,
    {
        assert(all[i as int] == metadata@[i as int]@);
        if str_eq(metadata[i].name.as_str(), tool_name) {
            return Ok(&metadata[i]);
        }
        i += 1;
    }
    Err(McpError::ToolNotFound { name: copy_str(tool_name) })
}

/// The JSON list that presents the tools: for each its name and its server.
pub open spec fn tools_json(list: Seq<MetadataV>) -> JsonV {
    JsonV::Array(
        list.map_values(
            |m: MetadataV|
                object2("name"@, JsonV::Text(m.name), "server"@, JsonV::Text(m.server_name)),
        ),
    )
}

/// The section that presents the tools to the reasoner; empty where there
/// are no tools.
pub open spec fn tool_definitions(list: Seq<MetadataV>) -> Seq<char> {
    if list.len() == 0 {
        Seq::empty()
    } else {
        "\n## AVAILABLE MCP TOOLS\n\nYou have access to the following external tools:\n```json\n"@
            + json_pretty(tools_json(list)) + "\n```\n"@
    }
}

/// The JSON list that presents the tools.
pub fn tools_to_json(metadata: &Vec<McpToolMetadata>) -> (out: Json)
    ensures
        out@ == tools_json(metadata_views(metadata@)),
{
    let mut items: Vec<Json> = Vec::new();
    let ghost wanted = tools_json(metadata_views(metadata@))->Array_0;
    let mut i: usize = 0;
    while i < metadata.len()
        invariant
            i <= metadata.len(),
            wanted == tools_json(metadata_views(metadata@))->Array_0,
            values(items@) == wanted.take(i as int),
        decreases metadata.len() - i,
    {
        let item = Json::object_of2(
            "name",
            Json::Text(metadata[i].name.clone()),
            "server",
            Json::Text(metadata[i].server_name.clone()),
        );
        let ghost before = values(items@);
        items.push(item);
        assert(values(items@) =~= before.push(item@));
        assert(wanted.take(i + 1) =~= wanted.take(i as int).push(item@));
        i += 1;
    }
    assert(wanted.take(metadata.len() as int) =~= wanted);
    Json::array(items)
}

/// The section that presents the tools to the reasoner.
pub fn get_tool_definitions(metadata: &Vec<McpToolMetadata>) -> (out: String)
    ensures
        out@ == tool_definitions(metadata_views(metadata@)),
{
    if metadata.len() == 0 {
        return String::new();
    }
    let listing = print_json_pretty(&tools_to_json(metadata));
    let mut buf = chars_of(
        "\n## AVAILABLE MCP TOOLS\n\nYou have access to the following external tools:\n```json\n",
    );
    push_str(&mut buf, listing.as_str());
    push_str(&mut buf, "\n```\n");
    string_of(&buf)
}

} // verus!
