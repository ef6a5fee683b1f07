//! The configuration of the runtime, as `config.toml` holds it.

use crate::json::{field, lemma_view, members_of, text_field, values, Json, JsonV, Member,
    MemberV};
use crate::text::{chars_of, contains, contains_text, copy_str, decimal, parse_u64, push_str, str_eq,
    string_of, texts};
use vstd::prelude::*;

verus! {

/// Which of the two processes of the runtime this one is.
#[derive(Debug, Clone, Copy, PartialEq, Eq)]
pub enum SlyRole {
    Supervisor,
    Executor,
}

/// How a tool server is started.
#[derive(Debug, Clone, PartialEq)]
pub struct McpServerConfig {
    pub command: String,
    pub args: Vec<String>,
}

/// A tool server under its configured name.
#[derive(Debug, Clone, PartialEq)]
pub struct NamedServer {
    pub name: String,
    pub config: McpServerConfig,
}

/// The configuration of the runtime.
#[derive(Debug, Clone, PartialEq)]
pub struct SlyConfig {
    pub project_name: String,
    pub primary_model: String,
    pub fallback_model: String,
    pub autonomous_mode: bool,
    pub max_autonomous_loops: usize,
    pub role: SlyRole,
    pub mcp_servers: Vec<NamedServer>,
}

/// The mathematical value of a [`NamedServer`].
pub struct ServerV {
    pub name: Seq<char>,
    pub command: Seq<char>,
    pub args: Seq<Seq<char>>,
}

/// The mathematical value of a [`SlyConfig`].
pub struct ConfigV {
    pub project_name: Seq<char>,
    pub primary_model: Seq<char>,
    pub fallback_model: Seq<char>,
    pub autonomous_mode: bool,
    pub max_autonomous_loops: usize,
    pub role: SlyRole,
    pub mcp_servers: Seq<ServerV>,
}

impl View for NamedServer {
    type V = ServerV;

    open spec fn view(&self) -> ServerV {
        ServerV { name: self.name@, command: self.config.command@, args: texts(self.config.args@) }
    }
}

/// The values of a list of servers.
pub open spec fn server_views(list: Seq<NamedServer>) -> Seq<ServerV> {
    list.map_values(|s: NamedServer| s@)
}

impl View for SlyConfig {
    type V = ConfigV;

    open spec fn view(&self) -> ConfigV {
        ConfigV {
            project_name: self.project_name@,
            primary_model: self.primary_model@,
            fallback_model: self.fallback_model@,
            autonomous_mode: self.autonomous_mode,
            max_autonomous_loops: self.max_autonomous_loops,
            role: self.role,
            mcp_servers: server_views(self.mcp_servers@),
        }
    }
}

/// How many steps a session may take where the configuration does not say.
pub const DEFAULT_MAX_LOOPS: usize = 50;

/// The configuration that is used where none can be read.
pub open spec fn default_config() -> ConfigV {
    ConfigV {
        project_name: "sly"@,
        primary_model: "gemini-3-flash"@,
        fallback_model: "gemini-3-flash"@,
        autonomous_mode: false,
        max_autonomous_loops: DEFAULT_MAX_LOOPS,
        role: SlyRole::Executor,
        mcp_servers: Seq::empty(),
    }
}

impl Default for SlyConfig {
    fn default() -> (out: Self)
        ensures
            out@ == default_config(),
    {
        let servers: Vec<NamedServer> = Vec::new();
        assert(server_views(servers@) =~= Seq::<ServerV>::empty());
        SlyConfig {
            project_name: copy_str("sly"),
            primary_model: copy_str("gemini-3-flash"),
            fallback_model: copy_str("gemini-3-flash"),
            autonomous_mode: false,
            max_autonomous_loops: DEFAULT_MAX_LOOPS,
            role: SlyRole::Executor,
            mcp_servers: servers,
        }
    }
}

/// What `toml::from_str` makes of a text, with tables as objects, dates as
/// the texts that `toml` displays for them and numbers as the texts that
/// their `to_string` gives; `None` where the text is no TOML document.
pub uninterp spec fn toml_value(text: Seq<char>) -> Option<JsonV>;

/// `toml::Value`, carried through as it is.
#[verifier::external_type_specification]
#[verifier::external_body]
pub struct ExTomlValue(toml::Value);

/// Tells the kinds of `toml::Value` apart and moves the fields of each into
/// the model, item by item.
#[verifier::external_body]
fn from_toml_value(v: toml::Value) -> (out: Json) {
    match v {
        toml::Value::String(s) => Json::Text(s),
        toml::Value::Integer(i) => Json::Number(i.to_string()),
        toml::Value::Float(f) => Json::Number(f.to_string()),
        toml::Value::Boolean(b) => Json::Bool(b),
        toml::Value::Datetime(d) => Json::Text(d.to_string()),
        toml::Value::Array(a) => Json::Array(a.into_iter().map(from_toml_value).collect()),
        toml::Value::Table(t) => Json::Object(
            t.into_iter().map(|(key, v)| Member { key, value: from_toml_value(v) }).collect(),
        ),
    }
}

/// `toml::from_str::<toml::Value>`: reads one TOML document. The result
/// depends on the text alone.
#[verifier::external_body]
pub(crate) fn parse_toml(text: &str) -> (out: Option<Json>)
    ensures
        match out {
            Some(j) => toml_value(text@) == Some(j@),
            None => toml_value(text@) is None,
        },
{
    match toml::from_str::<toml::Value>(text) {
        Ok(v) => Some(from_toml_value(v)),
        Err(_) => None,
    }
}

/// A member that is a truth value, or `fallback` where it is missing; `None`
/// where it is something else.
pub open spec fn flag_field(v: JsonV, key: Seq<char>, fallback: bool) -> Option<bool> {
    match field(v, key) {
        None => Some(fallback),
        Some(JsonV::Bool(b)) => Some(b),
        Some(_) => None,
    }
}

/// A member that is a count, or `fallback` where it is missing; `None`
/// where it is something else or does not fit.
pub open spec fn count_field(v: JsonV, key: Seq<char>, fallback: usize) -> Option<usize> {
    match field(v, key) {
        None => Some(fallback),
        Some(JsonV::Number(t)) => if exists|n: usize| t == decimal(n as nat) {
            Some(choose|n: usize| t == decimal(n as nat))
        } else {
            None
        },
        Some(_) => None,
    }
}

/// The role that a member names, or the executor where it is missing.
pub open spec fn role_field(v: JsonV, key: Seq<char>) -> Option<SlyRole> {
    match field(v, key) {
        None => Some(SlyRole::Executor),
        Some(JsonV::Text(t)) => if t == "supervisor"@ {
            Some(SlyRole::Supervisor)
        } else if t == "executor"@ {
            Some(SlyRole::Executor)
        } else {
            None
        },
        Some(_) => None,
    }
}

/// The texts of an array of texts.
pub open spec fn text_list(v: JsonV) -> Option<Seq<Seq<char>>> {
    match v {
        JsonV::Array(items) => if forall|i: int|
            0 <= i < items.len() ==> (#[trigger] items[i]) is Text {
            Some(Seq::new(items.len(), |i: int| items[i]->Text_0))
        } else {
            None
        },
        _ => None,
    }
}

/// The server that a member of the table of servers describes: a command
/// and a list of arguments.
pub open spec fn server_of(m: MemberV) -> Option<ServerV> {
    match (text_field(m.value, "command"@), field(m.value, "args"@)) {
        (Some(command), Some(list)) => match text_list(list) {
            Some(args) => Some(ServerV { name: m.key, command, args }),
            None => None,
        },
        _ => None,
    }
}

/// The servers of a configuration: none where the table is missing; every
/// member of the table must describe a server.
pub open spec fn servers_field(v: JsonV) -> Option<Seq<ServerV>> {
    match field(v, "mcp_servers"@) {
        None => Some(seq![]),
        Some(JsonV::Object(members)) => if forall|i: int|
            0 <= i < members.len() ==> server_of(#[trigger] members[i]) is Some {
            Some(Seq::new(members.len(), |i: int| server_of(members[i])->0))
        } else {
            None
        },
        Some(_) => None,
    }
}

/// The configuration that a document describes: the three names are
/// required; the rest has defaults. `None` where a member has the wrong
/// type.
pub open spec fn config_of(v: JsonV) -> Option<ConfigV> {
    match (
        text_field(v, "project_name"@),
        text_field(v, "primary_model"@),
        text_field(v, "fallback_model"@),
    ) {
        (Some(project_name), Some(primary_model), Some(fallback_model)) => match (
            flag_field(v, "autonomous_mode"@, false),
            count_field(v, "max_autonomous_loops"@, DEFAULT_MAX_LOOPS),
            role_field(v, "role"@),
            servers_field(v),
        ) {
            (Some(autonomous_mode), Some(max_autonomous_loops), Some(role), Some(mcp_servers)) => Some(
                ConfigV {
                    project_name,
                    primary_model,
                    fallback_model,
                    autonomous_mode,
                    max_autonomous_loops,
                    role,
                    mcp_servers,
                },
            ),
            _ => None,
        },
        _ => None,
    }
}

/// The configuration that a text gives: the one it describes, or the
/// default where it describes none.
pub open spec fn loaded(text: Seq<char>) -> ConfigV {
    match toml_value(text) {
        Some(v) => match config_of(v) {
            Some(c) => c,
            None => default_config(),
        },
        None => default_config(),
    }
}

fn read_flag(j: &Json, key: &str, fallback: bool) -> (out: Option<bool>)
    ensures
        out == flag_field(j@, key@, fallback),
{
    match j.get(key) {
        None => Some(fallback),
        Some(Json::Bool(b)) => Some(*b),
        Some(_) => None,
    }
}

fn read_count(j: &Json, key: &str, fallback: usize) -> (out: Option<usize>)
    ensures
        out == count_field(j@, key@, fallback),
{
    match j.get(key) {
        None => Some(fallback),
        Some(Json::Number(t)) => match parse_u64(&chars_of(t.as_str())) {
            Some(n) => {
                if n > usize::MAX as u64 {
                    assert forall|m: usize| t@ != decimal(m as nat) by {
                        if t@ == decimal(m as nat) {
                            crate::text::lemma_decimal_injective(n as nat, m as nat);
                        }
                    }
                    None
                } else {
                    proof {
                        let w = choose|m: usize| t@ == decimal(m as nat);
                        crate::text::lemma_decimal_injective(n as nat, w as nat);
                    }
                    Some(n as usize)
                }
            },
            None => None,
        },
        Some(_) => None,
    }
}

fn read_role(j: &Json, key: &str) -> (out: Option<SlyRole>)
    ensures
        out == role_field(j@, key@),
{
    match j.get(key) {
        None => Some(SlyRole::Executor),
        Some(Json::Text(t)) => if str_eq(t.as_str(), "supervisor") {
            Some(SlyRole::Supervisor)
        } else if str_eq(t.as_str(), "executor") {
            Some(SlyRole::Executor)
        } else {
            None
        },
        Some(_) => None,
    }
}

fn read_text_list(j: &Json) -> (out: Option<Vec<String>>)
    ensures
        match out {
            Some(list) => text_list(j@) == Some(texts(list@)),
            None => text_list(j@) is None,
        },
{
    let items = match j.as_items() {
        Some(items) => items,
        None => {
            return None;
        },
    };
    let ghost all = values(items@);
    let mut list: Vec<String> = Vec::new();
    let mut i: usize = 0;
    while i < items.len()
        invariant
            i <= items.len(),
            all == values(items@),
            j@ == JsonV::Array(all),
            list@.len() == i,
            forall|k: int| 0 <= k < i ==> (#[trigger] all[k]) == JsonV::Text(list@[k]@),
        decreases items.len() - i,
    {
        assert(all[i as int] == items@[i as int]@);
        match items[i].as_text() {
            Some(t) => {
                list.push(t.clone());
            },
            None => {
                return None;
            },
        }
        i += 1;
    }
    assert(text_list(j@)->0 =~= texts(list@));
    Some(list)
}

fn read_servers(j: &Json) -> (out: Option<Vec<NamedServer>>)
    ensures
        match out {
            Some(list) => servers_field(j@) == Some(server_views(list@)),
            None => servers_field(j@) is None,
        },
{
    let mut list: Vec<NamedServer> = Vec::new();
    assert(server_views(list@) =~= Seq::<ServerV>::empty());
    let table = match j.get("mcp_servers") {
        None => {
            return Some(list);
        },
        Some(t) => t,
    };
    proof {
        lemma_view(*table);
    }
    let members = match table {
        Json::Object(members) => members,
        _ => {
            return None;
        },
    };
    let ghost all = members_of(members@);
    let mut i: usize = 0;
    while i < members.len()
        invariant
            i <= members.len(),
            all == members_of(members@),
            field(j@, "mcp_servers"@) == Some(JsonV::Object(all)),
            list@.len() == i,
            forall|k: int| 0 <= k < i ==> server_of(#[trigger] all[k]) == Some(list@[k]@),
        decreases members.len() - i,
    {
        let m = &members[i];
        assert(all[i as int] == MemberV { key: m.key@, value: m.value@ });
        let server = match (m.value.text_at("command"), m.value.get("args")) {
            (Some(command), Some(args)) => match read_text_list(args) {
                Some(args) => NamedServer {
                    name: m.key.clone(),
                    config: McpServerConfig { command: command.clone(), args },
                },
                None => {
                    assert(server_of(all[i as int]) is None);
                    return None;
                },
            },
            _ => {
                assert(server_of(all[i as int]) is None);
                return None;
            },
        };
        list.push(server);
        i += 1;
    }
    assert(servers_field(j@)->0 =~= server_views(list@));
    Some(list)
}

impl SlyConfig {
    /// Reads a configuration from a document.
    pub fn from_document(j: &Json) -> (out: Option<SlyConfig>)
        ensures
            match out {
                Some(c) => config_of(j@) == Some(c@),
                None => config_of(j@) is None,
            },
    {
        match (j.text_at("project_name"), j.text_at("primary_model"), j.text_at("fallback_model")) {
            (Some(project_name), Some(primary_model), Some(fallback_model)) => match (
                read_flag(j, "autonomous_mode", false),
                read_count(j, "max_autonomous_loops", DEFAULT_MAX_LOOPS),
                read_role(j, "role"),
                read_servers(j),
            ) {
                (Some(autonomous_mode), Some(max_autonomous_loops), Some(role), Some(mcp_servers)) => Some(
                    SlyConfig {
                        project_name: project_name.clone(),
                        primary_model: primary_model.clone(),
                        fallback_model: fallback_model.clone(),
                        autonomous_mode,
                        max_autonomous_loops,
                        role,
                        mcp_servers,
                    },
                ),
                _ => None,
            },
            _ => None,
        }
    }

    /// Reads the configuration from the text of `config.toml`. A text that
    /// cannot be read gives the default configuration.
    pub fn load(text: &str) -> (out: SlyConfig)
        ensures
            out@ == loaded(text@),
    {
        match parse_toml(text) {
            Some(j) => match SlyConfig::from_document(&j) {
                Some(c) => c,
                None => SlyConfig::default(),
            },
            None => SlyConfig::default(),
        }
    }
}


/// The directory in which the runtime keeps its data.
pub const SLY_DIR: &'static str = ".sly";

/// What is appended to the ignore file of the version control.
pub const IGNORE_ENTRY: &'static str = "\n# Sly Agent Data\n.sly/\n";

/// The ignore file with the runtime's directory in it: `None` where the
/// file names the directory already, else the file with the entry behind
/// it.
pub fn gitignore_with_entry(existing: &str) -> (out: Option<String>)
    ensures
        match out {
            None => contains_text(existing@, SLY_DIR@),
            Some(text) => !contains_text(existing@, SLY_DIR@) && text@ == existing@
                + IGNORE_ENTRY@,
        },
{
    let text = chars_of(existing);
    if contains(&text, &chars_of(SLY_DIR)) {
        None
    } else {
        let mut buf = text;
        push_str(&mut buf, IGNORE_ENTRY);
        Some(string_of(&buf))
    }
}

} // verus!
