//! The actions that the reasoner can ask for, and the parser that finds them
//! in its free-form output.

use crate::json::{field, parse_json, text_field, values, Json, JsonV, json_value};
use crate::text::{chars_of, copy_str, find, find_from, has_prefix, lemma_find_from,
    lemma_signed_decimal_injective, occurs_at, parse_i64, signed_decimal, slice_of, starts_with,
    str_eq, string_of, trim, trimmed};
use vstd::prelude::*;

verus! {

/// One thing the reasoner asks the runtime to do.
#[derive(Debug, Clone, PartialEq)]
pub enum AgentAction {
    WriteFile { path: String, content: String },
    ExecShell { command: String, context: String },
    QueryMemory { query: String, strategy: Option<String> },
    CommitOverlay { message: String },
    CallTool { tool_name: String, arguments: Json },
    UseSkill { name: String, args: Vec<i32> },
    QueryDatalog { script: String },
    Answer { text: String },
}

/// The mathematical value of an [`AgentAction`].
pub enum ActionV {
    WriteFile { path: Seq<char>, content: Seq<char> },
    ExecShell { command: Seq<char>, context: Seq<char> },
    QueryMemory { query: Seq<char>, strategy: Option<Seq<char>> },
    CommitOverlay { message: Seq<char> },
    CallTool { tool_name: Seq<char>, arguments: JsonV },
    UseSkill { name: Seq<char>, args: Seq<i32> },
    QueryDatalog { script: Seq<char> },
    Answer { text: Seq<char> },
}

impl View for AgentAction {
    type V = ActionV;

    open spec fn view(&self) -> ActionV {
        match self {
            AgentAction::WriteFile { path, content } => ActionV::WriteFile {
                path: path@,
                content: content@,
            },
            AgentAction::ExecShell { command, context } => ActionV::ExecShell {
                command: command@,
                context: context@,
            },
            AgentAction::QueryMemory { query, strategy } => ActionV::QueryMemory {
                query: query@,
                strategy: match strategy {
                    Some(s) => Some(s@),
                    None => None,
                },
            },
            AgentAction::CommitOverlay { message } => ActionV::CommitOverlay { message: message@ },
            AgentAction::CallTool { tool_name, arguments } => ActionV::CallTool {
                tool_name: tool_name@,
                arguments: arguments@,
            },
            AgentAction::UseSkill { name, args } => ActionV::UseSkill { name: name@, args: args@ },
            AgentAction::QueryDatalog { script } => ActionV::QueryDatalog { script: script@ },
            AgentAction::Answer { text } => ActionV::Answer { text: text@ },
        }
    }
}

/// The values of a list of actions.
pub open spec fn action_views(actions: Seq<AgentAction>) -> Seq<ActionV> {
    actions.map_values(|a: AgentAction| a@)
}

/// The 32-bit integer that a JSON number writes, if it writes one.
pub open spec fn small_int(v: JsonV) -> Option<i32> {
    match v {
        JsonV::Number(t) => if exists|n: i32| t == signed_decimal(n as int) {
            Some(choose|n: i32| t == signed_decimal(n as int))
        } else {
            None
        },
        _ => None,
    }
}

/// The integers of a JSON array of 32-bit integers.
pub open spec fn small_ints(v: JsonV) -> Option<Seq<i32>> {
    match v {
        JsonV::Array(items) => if forall|i: int|
            0 <= i < items.len() ==> small_int(#[trigger] items[i]) is Some {
            Some(Seq::new(items.len(), |i: int| small_int(items[i])->0))
        } else {
            None
        },
        _ => None,
    }
}

/// A member that may be missing or null, and else must be a string. The outer
/// `None` says that it is something else.
pub open spec fn optional_text(v: JsonV, key: Seq<char>) -> Option<Option<Seq<char>>> {
    match field(v, key) {
        None => Some(None),
        Some(JsonV::Null) => Some(None),
        Some(JsonV::Text(t)) => Some(Some(t)),
        Some(_) => None,
    }
}

/// The action that a JSON value describes: an object whose member
/// `directive` names the kind and whose other members are the fields of that
/// kind, each of the right type. Members that the kind does not have are
/// ignored.
pub open spec fn action_of(v: JsonV) -> Option<ActionV> {
    match text_field(v, "directive"@) {
        None => None,
        Some(tag) => if tag == "WriteFile"@ {
            match (text_field(v, "path"@), text_field(v, "content"@)) {
                (Some(path), Some(content)) => Some(ActionV::WriteFile { path, content }),
                _ => None,
            }
        } else if tag == "ExecShell"@ {
            match (text_field(v, "command"@), text_field(v, "context"@)) {
                (Some(command), Some(context)) => Some(ActionV::ExecShell { command, context }),
                _ => None,
            }
        } else if tag == "QueryMemory"@ {
            match (text_field(v, "query"@), optional_text(v, "strategy"@)) {
                (Some(query), Some(strategy)) => Some(ActionV::QueryMemory { query, strategy }),
                _ => None,
            }
        } else if tag == "CommitOverlay"@ {
            match text_field(v, "message"@) {
                Some(message) => Some(ActionV::CommitOverlay { message }),
                None => None,
            }
        } else if tag == "CallTool"@ {
            match (text_field(v, "tool_name"@), field(v, "arguments"@)) {
                (Some(tool_name), Some(arguments)) => Some(
                    ActionV::CallTool { tool_name, arguments },
                ),
                _ => None,
            }
        } else if tag == "UseSkill"@ {
            match (text_field(v, "name"@), field(v, "args"@)) {
                (Some(name), Some(list)) => match small_ints(list) {
                    Some(args) => Some(ActionV::UseSkill { name, args }),
                    None => None,
                },
                _ => None,
            }
        } else if tag == "QueryDatalog"@ {
            match text_field(v, "script"@) {
                Some(script) => Some(ActionV::QueryDatalog { script }),
                None => None,
            }
        } else if tag == "Answer"@ {
            match text_field(v, "text"@) {
                Some(text) => Some(ActionV::Answer { text }),
                None => None,
            }
        } else {
            None
        },
    }
}

/// The actions that a JSON array describes, if every item describes one.
pub open spec fn actions_of(v: JsonV) -> Option<Seq<ActionV>> {
    match v {
        JsonV::Array(items) => if forall|i: int|
            0 <= i < items.len() ==> action_of(#[trigger] items[i]) is Some {
            Some(Seq::new(items.len(), |i: int| action_of(items[i])->0))
        } else {
            None
        },
        _ => None,
    }
}

/// Reads a JSON number as a 32-bit integer.
pub fn read_small_int(j: &Json) -> (out: Option<i32>)
    ensures
        out == small_int(j@),
{
    match j {
        Json::Number(t) => {
            let digits = chars_of(t.as_str());
            match parse_i64(&digits) {
                Some(n) => {
                    if n < -2147483648 || n > 2147483647 {
                        assert forall|m: i32| t@ != signed_decimal(m as int) by {
                            if t@ == signed_decimal(m as int) {
                                lemma_signed_decimal_injective(n as int, m as int);
                            }
                        }
                        None
                    } else {
                        let small = n as i32;
                        proof {
                            let w = choose|m: i32| t@ == signed_decimal(m as int);
                            lemma_signed_decimal_injective(small as int, w as int);
                        }
                        Some(small)
                    }
                },
                None => None,
            }
        },
        _ => None,
    }
}

/// Reads a JSON array of 32-bit integers.
pub fn read_small_ints(j: &Json) -> (out: Option<Vec<i32>>)
    ensures
        match out {
            Some(list) => small_ints(j@) == Some(list@),
            None => small_ints(j@) is None,
        },
{
    match j.as_items() {
        None => None,
        Some(items) => {
            let mut list: Vec<i32> = Vec::new();
            let mut i: usize = 0;
            while i < items.len()
                invariant
                    i <= items.len(),
                    j@ == JsonV::Array(values(items@)),
                    list@.len() == i,
                    forall|k: int| 0 <= k < i ==> small_int(#[trigger] values(items@)[k]) == Some(list@[k]),
                decreases items.len() - i,
            {
                match read_small_int(&items[i]) {
                    Some(n) => {
                        list.push(n);
                    },
                    None => {
                        assert(small_int(values(items@)[i as int]) is None);
                        return None;
                    },
                }
                i += 1;
            }
            assert(small_ints(j@)->0 =~= list@);
            Some(list)
        },
    }
}

fn optional_text_at(j: &Json, key: &str) -> (out: Option<Option<String>>)
    ensures
        match out {
            Some(Some(t)) => optional_text(j@, key@) == Some(Some(t@)),
            Some(None) => optional_text(j@, key@) == Some(None::<Seq<char>>),
            None => optional_text(j@, key@) is None,
        },
{
    match j.get(key) {
        None => Some(None),
        Some(Json::Null) => Some(None),
        Some(Json::Text(t)) => Some(Some(t.clone())),
        Some(_) => None,
    }
}

impl AgentAction {
    /// Reads one action from a JSON value.
    pub fn from_json(j: &Json) -> (out: Option<AgentAction>)
        ensures
            match out {
                Some(a) => action_of(j@) == Some(a@),
                None => action_of(j@) is None,
            },
    {
        let tag = match j.text_at("directive") {
            Some(t) => t.as_str(),
            None => {
                return None;
            },
        };
        if str_eq(tag, "WriteFile") {
            match (j.text_at("path"), j.text_at("content")) {
                (Some(path), Some(content)) => Some(
                    AgentAction::WriteFile { path: path.clone(), content: content.clone() },
                ),
                _ => None,
            }
        } else if str_eq(tag, "ExecShell") {
            match (j.text_at("command"), j.text_at("context")) {
                (Some(command), Some(context)) => Some(
                    AgentAction::ExecShell { command: command.clone(), context: context.clone() },
                ),
                _ => None,
            }
        } else if str_eq(tag, "QueryMemory") {
            match (j.text_at("query"), optional_text_at(j, "strategy")) {
                (Some(query), Some(strategy)) => Some(
                    AgentAction::QueryMemory { query: query.clone(), strategy },
                ),
                _ => None,
            }
        } else if str_eq(tag, "CommitOverlay") {
            match j.text_at("message") {
                Some(message) => Some(AgentAction::CommitOverlay { message: message.clone() }),
                None => None,
            }
        } else if str_eq(tag, "CallTool") {
            match (j.text_at("tool_name"), j.get("arguments")) {
                (Some(tool_name), Some(arguments)) => Some(
                    AgentAction::CallTool {
                        tool_name: tool_name.clone(),
                        arguments: arguments.duplicate(),
                    },
                ),
                _ => None,
            }
        } else if str_eq(tag, "UseSkill") {
            match (j.text_at("name"), j.get("args")) {
                (Some(name), Some(list)) => match read_small_ints(list) {
                    Some(args) => Some(AgentAction::UseSkill { name: name.clone(), args }),
                    None => None,
                },
                _ => None,
            }
        } else if str_eq(tag, "QueryDatalog") {
            match j.text_at("script") {
                Some(script) => Some(AgentAction::QueryDatalog { script: script.clone() }),
                None => None,
            }
        } else if str_eq(tag, "Answer") {
            match j.text_at("text") {
                Some(text) => Some(AgentAction::Answer { text: text.clone() }),
                None => None,
            }
        } else {
            None
        }
    }

    /// Reads a list of actions from a JSON array; `None` unless the value is
    /// an array whose every item is an action.
    pub fn list_from_json(j: &Json) -> (out: Option<Vec<AgentAction>>)
        ensures
            match out {
                Some(list) => actions_of(j@) == Some(action_views(list@)),
                None => actions_of(j@) is None,
            },
    {
        match j.as_items() {
            None => None,
            Some(items) => {
                let mut list: Vec<AgentAction> = Vec::new();
                let mut i: usize = 0;
                while i < items.len()
                    invariant
                        i <= items.len(),
                        j@ == JsonV::Array(values(items@)),
                        list@.len() == i,
                        forall|k: int|
                            0 <= k < i ==> action_of(#[trigger] values(items@)[k]) == Some(
                                list@[k]@,
                            ),
                    decreases items.len() - i,
                {
                    match AgentAction::from_json(&items[i]) {
                        Some(a) => {
                            list.push(a);
                        },
                        None => {
                            assert(action_of(values(items@)[i as int]) is None);
                            return None;
                        },
                    }
                    i += 1;
                }
                assert(actions_of(j@)->0 =~= action_views(list@));
                Some(list)
            },
        }
    }
}


/// What the text of a block behind a `json` fence gives: the actions of an
/// array of actions, else the one action it describes, else nothing.
pub open spec fn tagged_block(text: Seq<char>) -> Seq<ActionV> {
    match json_value(text) {
        None => seq![],
        Some(v) => match actions_of(v) {
            Some(list) => list,
            None => match action_of(v) {
                Some(a) => seq![a],
                None => seq![],
            },
        },
    }
}

/// What the text of a block behind a plain fence, or a whole response,
/// gives: the one action it describes, else the actions of an array of
/// actions, else nothing.
pub open spec fn plain_block(text: Seq<char>) -> Seq<ActionV> {
    match json_value(text) {
        None => seq![],
        Some(v) => match action_of(v) {
            Some(a) => seq![a],
            None => match actions_of(v) {
                Some(list) => list,
                None => seq![],
            },
        },
    }
}

/// The actions of the blocks that open with a `json` fence at or after
/// `from`. A block runs from behind its opening fence to the next fence; its
/// text is trimmed. The scan goes on behind the closing fence and ends at an
/// opening fence that is never closed.
pub open spec fn tagged_actions(r: Seq<char>, from: int) -> Seq<ActionV>
    decreases r.len() - from,
{
    if from < 0 {
        seq![]
    } else {
        match find_from(r, "```json"@, from) {
            None => seq![],
            Some(open) => match find_from(r, "```"@, open + 7) {
                None => seq![],
                Some(close) => {
                    proof {
                        reveal_strlit("```");
                        lemma_find_from(r, "```json"@, from);
                        lemma_find_from(r, "```"@, open + 7);
                    }
                    tagged_block(trimmed(r.subrange(open + 7, close))) + tagged_actions(
                        r,
                        close + 3,
                    )
                },
            },
        }
    }
}

/// The actions of the blocks between plain fences at or after `from`. A fence
/// that opens a `json` block is stepped over, so that the fence closing that
/// block is read as an opening one.
pub open spec fn plain_actions(r: Seq<char>, from: int) -> Seq<ActionV>
    decreases r.len() - from,
{
    if from < 0 {
        seq![]
    } else {
        match find_from(r, "```"@, from) {
            None => seq![],
            Some(open) => {
                proof {
                    reveal_strlit("```");
                    reveal_strlit("```json");
                    lemma_find_from(r, "```"@, from);
                }
                if occurs_at(r, "```json"@, open) {
                    plain_actions(r, open + 7)
                } else {
                    match find_from(r, "```"@, open + 3) {
                        None => seq![],
                        Some(close) => {
                            proof {
                                lemma_find_from(r, "```"@, open + 3);
                            }
                            plain_block(trimmed(r.subrange(open + 3, close))) + plain_actions(
                                r,
                                close + 3,
                            )
                        },
                    }
                }
            },
        }
    }
}

/// The actions of the whole response, read only where its trimmed text begins
/// with a brace or a bracket.
pub open spec fn whole_actions(r: Seq<char>) -> Seq<ActionV> {
    let t = trimmed(r);
    if has_prefix(t, "{"@) || has_prefix(t, "["@) {
        plain_block(t)
    } else {
        seq![]
    }
}

/// The actions that a response asks for: those of its `json` blocks; if there
/// are none, those of its plain blocks; if there are none, those of the whole
/// response; and if there are still none, the response itself as an answer.
pub open spec fn parsed(r: Seq<char>) -> Seq<ActionV> {
    if tagged_actions(r, 0).len() > 0 {
        tagged_actions(r, 0)
    } else if plain_actions(r, 0).len() > 0 {
        plain_actions(r, 0)
    } else if whole_actions(r).len() > 0 {
        whole_actions(r)
    } else {
        seq![ActionV::Answer { text: r }]
    }
}

/// Reads the text of one block: as a list first where `list_first`, as a
/// single action first where not.
pub fn read_block(text: &str, list_first: bool) -> (out: Vec<AgentAction>)
    ensures
        action_views(out@) == if list_first {
            tagged_block(text@)
        } else {
            plain_block(text@)
        },
{
    let mut out: Vec<AgentAction> = Vec::new();
    assert(action_views(out@) =~= Seq::<ActionV>::empty());
    match parse_json(text) {
        None => out,
        Some(j) => {
            if list_first {
                match AgentAction::list_from_json(&j) {
                    Some(list) => list,
                    None => match AgentAction::from_json(&j) {
                        Some(a) => {
                            out.push(a);
                            assert(action_views(out@) =~= seq![a@]);
                            out
                        },
                        None => out,
                    },
                }
            } else {
                match AgentAction::from_json(&j) {
                    Some(a) => {
                        out.push(a);
                        assert(action_views(out@) =~= seq![a@]);
                        out
                    },
                    None => match AgentAction::list_from_json(&j) {
                        Some(list) => list,
                        None => out,
                    },
                }
            }
        },
    }
}

fn scan_tagged(r: &Vec<char>) -> (out: Vec<AgentAction>)
    ensures
        action_views(out@) == tagged_actions(r@, 0),
{
    let opening = chars_of("```json");
    let fence = chars_of("```");
    let mut out: Vec<AgentAction> = Vec::new();
    let mut from: usize = 0;
    proof {
        reveal_strlit("```json");
        reveal_strlit("```");
        assert(action_views(out@) + tagged_actions(r@, 0) =~= tagged_actions(r@, 0));
    }
    loop
        invariant
            opening@ == "```json"@,
            fence@ == "```"@,
            opening@.len() == 7,
            fence@.len() == 3,
            from <= r.len(),
            tagged_actions(r@, 0) == action_views(out@) + tagged_actions(r@, from as int),
        ensures
            action_views(out@) == tagged_actions(r@, 0),
        decreases r.len() - from,
    {
        let open = match find(r, &opening, from) {
            Some(i) => i,
            None => {
                assert(action_views(out@) + Seq::<ActionV>::empty() =~= action_views(out@));
                break ;
            },
        };
        proof {
            lemma_find_from(r@, opening@, from as int);
        }
        let close = match find(r, &fence, open + 7) {
            Some(i) => i,
            None => {
                assert(action_views(out@) + Seq::<ActionV>::empty() =~= action_views(out@));
                break ;
            },
        };
        proof {
            lemma_find_from(r@, fence@, open + 7);
        }
        let block = trim(&slice_of(r, open + 7, close));
        let text = string_of(&block);
        let mut got = read_block(text.as_str(), true);
        let ghost before = action_views(out@);
        let ghost added = action_views(got@);
        out.append(&mut got);
        assert(action_views(out@) =~= before + added);
        assert(before + (added + tagged_actions(r@, close + 3)) =~= (before + added)
            + tagged_actions(r@, close + 3));
        from = close + 3;
    }
    out
}

fn scan_plain(r: &Vec<char>) -> (out: Vec<AgentAction>)
    ensures
        action_views(out@) == plain_actions(r@, 0),
{
    let opening = chars_of("```json");
    let fence = chars_of("```");
    let mut out: Vec<AgentAction> = Vec::new();
    let mut from: usize = 0;
    proof {
        reveal_strlit("```json");
        reveal_strlit("```");
        assert(action_views(out@) + plain_actions(r@, 0) =~= plain_actions(r@, 0));
    }
    loop
        invariant
            opening@ == "```json"@,
            fence@ == "```"@,
            opening@.len() == 7,
            fence@.len() == 3,
            from <= r.len(),
            plain_actions(r@, 0) == action_views(out@) + plain_actions(r@, from as int),
        ensures
            action_views(out@) == plain_actions(r@, 0),
        decreases r.len() - from,
    {
        let open = match find(r, &fence, from) {
            Some(i) => i,
            None => {
                assert(action_views(out@) + Seq::<ActionV>::empty() =~= action_views(out@));
                break ;
            },
        };
        proof {
            lemma_find_from(r@, fence@, from as int);
        }
        if crate::text::matches_at(r, &opening, open) {
            from = open + 7;
            continue ;
        }
        let close = match find(r, &fence, open + 3) {
            Some(i) => i,
            None => {
                assert(action_views(out@) + Seq::<ActionV>::empty() =~= action_views(out@));
                break ;
            },
        };
        proof {
            lemma_find_from(r@, fence@, open + 3);
        }
        let block = trim(&slice_of(r, open + 3, close));
        let text = string_of(&block);
        let mut got = read_block(text.as_str(), false);
        let ghost before = action_views(out@);
        let ghost added = action_views(got@);
        out.append(&mut got);
        assert(action_views(out@) =~= before + added);
        assert(before + (added + plain_actions(r@, close + 3)) =~= (before + added)
            + plain_actions(r@, close + 3));
        from = close + 3;
    }
    out
}

fn read_whole(r: &Vec<char>) -> (out: Vec<AgentAction>)
    ensures
        action_views(out@) == whole_actions(r@),
{
    let t = trim(r);
    if starts_with(&t, &chars_of("{")) || starts_with(&t, &chars_of("[")) {
        let text = string_of(&t);
        read_block(text.as_str(), false)
    } else {
        let out: Vec<AgentAction> = Vec::new();
        assert(action_views(out@) =~= Seq::<ActionV>::empty());
        out
    }
}

/// Finds the actions in a response of the reasoner. It never fails: a
/// response without a readable action is itself the answer.
pub fn parse_action(response: &str) -> (out: Vec<AgentAction>)
    ensures
        action_views(out@) == parsed(response@),
        out@.len() >= 1,
{
    let r = chars_of(response);
    let tagged = scan_tagged(&r);
    if tagged.len() > 0 {
        return tagged;
    }
    let plain = scan_plain(&r);
    if plain.len() > 0 {
        return plain;
    }
    let whole = read_whole(&r);
    if whole.len() > 0 {
        return whole;
    }
    let mut out: Vec<AgentAction> = Vec::new();
    let answer = AgentAction::Answer { text: copy_str(response) };
    out.push(answer);
    assert(action_views(out@) =~= seq![answer@]);
    out
}


/// A response always gives at least one action.
pub proof fn law_parse_never_empty(r: Seq<char>)
    ensures
        parsed(r).len() >= 1,
{
}

/// Round trip of a rendered list: a response that is one `json` fence, a line
/// feed, a body without a fence in it, a line feed and a closing fence gives
/// back exactly the list that the body is read as, provided that the list is
/// not empty.
pub proof fn law_fenced_array_reads_back(body: Seq<char>, actions: Seq<ActionV>)
    requires
        actions.len() > 0,
        find_from(body, "```"@, 0) is None,
        json_value(trimmed("\n"@ + body + "\n"@)) matches Some(v) && actions_of(v) == Some(
            actions,
        ),
    ensures
        parsed("```json\n"@ + body + "\n```"@) == actions,
{
    reveal_strlit("```json\n");
    reveal_strlit("\n```");
    reveal_strlit("```json");
    reveal_strlit("```");
    reveal_strlit("\n");
    let head = "```json\n"@;
    let tail = "\n```"@;
    let fence = "```"@;
    let r = head + body + tail;
    let n = body.len() as int;
    let close = 9 + n;
    assert(r.len() == 12 + n);
    assert(r.subrange(0, 7) =~= "```json"@);
    assert(occurs_at(r, "```json"@, 0));
    assert(find_from(r, "```json"@, 0) == Some(0int));
    assert(r.subrange(close, close + 3) =~= fence);
    assert(occurs_at(r, fence, close));
    lemma_find_from(body, fence, 0);
    assert forall|p: int| 7 <= p < close implies !occurs_at(r, fence, p) by {
        if occurs_at(r, fence, p) {
            let w = r.subrange(p, p + 3);
            if p == 7 {
                assert(w[0] == r[7]);
            } else if p + 3 <= 8 + n {
                assert(body.subrange(p - 8, p - 8 + 3) =~= w);
                assert(occurs_at(body, fence, p - 8));
            } else {
                assert(w[8 + n - p] == r[8 + n]);
            }
        }
    }
    lemma_find_from(r, fence, 7);
    assert(find_from(r, fence, 7) == Some(close));
    assert(r.subrange(7, close) =~= "\n"@ + body + "\n"@);
    assert(find_from(r, "```json"@, close + 3) is None);
    assert(tagged_actions(r, close + 3) =~= Seq::<ActionV>::empty());
    assert(tagged_actions(r, 0) =~= actions);
}

} // verus!
