//! The requests of the memory's operations: the script of each and the
//! values bound to its parameters.

use crate::json::{Json, JsonV};
use crate::session::{label_of, AgentSession, SessionV};
use crate::text::{chars_of, copy_str, decimal, push_decimal, push_str, rows, string_of, texts};
use vstd::prelude::*;

verus! {

/// How wide an embedding is.
pub const EMBEDDING_DIM: usize = 384;

/// The widest search that an index lookup makes.
pub const SEARCH_EF: usize = 100;

/// A value bound to a parameter of a script.
#[derive(Debug, Clone, PartialEq)]
pub enum Datum {
    Text(String),
    Int(i64),
    Json(Json),
    /// Rows of texts.
    Rows(Vec<Vec<String>>),
    /// The embedding of this text.
    EmbeddingOf(String),
    /// Rows of texts, each with one more column behind them: the embedding
    /// of the text in column `source`. The texts are embedded in one batch.
    EmbeddedRows { rows: Vec<Vec<String>>, source: usize },
    /// The embedding that is zero everywhere.
    ZeroVector,
}

/// The mathematical value of a [`Datum`].
pub enum DatumV {
    Text(Seq<char>),
    Int(i64),
    Json(JsonV),
    Rows(Seq<Seq<Seq<char>>>),
    EmbeddingOf(Seq<char>),
    EmbeddedRows { rows: Seq<Seq<Seq<char>>>, source: nat },
    ZeroVector,
}

/// The texts of rows of strings.
pub open spec fn table_view(t: Seq<Vec<String>>) -> Seq<Seq<Seq<char>>> {
    t.map_values(|r: Vec<String>| texts(r@))
}

impl View for Datum {
    type V = DatumV;

    open spec fn view(&self) -> DatumV {
        match self {
            Datum::Text(t) => DatumV::Text(t@),
            Datum::Int(n) => DatumV::Int(*n),
            Datum::Json(j) => DatumV::Json(j@),
            Datum::Rows(t) => DatumV::Rows(table_view(t@)),
            Datum::EmbeddingOf(t) => DatumV::EmbeddingOf(t@),
            Datum::EmbeddedRows { rows, source } => DatumV::EmbeddedRows {
                rows: table_view(rows@),
                source: *source as nat,
            },
            Datum::ZeroVector => DatumV::ZeroVector,
        }
    }
}

/// One parameter of a script with the value bound to it.
#[derive(Debug, Clone, PartialEq)]
pub struct Param {
    pub name: String,
    pub value: Datum,
}

/// A request to the store.
#[derive(Debug, Clone, PartialEq)]
pub struct Query {
    pub script: String,
    pub params: Vec<Param>,
    /// Whether the script changes the store.
    pub mutable: bool,
}

/// The mathematical value of a [`Query`].
pub struct QueryV {
    pub script: Seq<char>,
    pub params: Seq<(Seq<char>, DatumV)>,
    pub mutable: bool,
}

/// The names and values of a list of parameters.
pub open spec fn param_views(params: Seq<Param>) -> Seq<(Seq<char>, DatumV)> {
    params.map_values(|p: Param| (p.name@, p.value@))
}

impl View for Query {
    type V = QueryV;

    open spec fn view(&self) -> QueryV {
        QueryV { script: self.script@, params: param_views(self.params@), mutable: self.mutable }
    }
}

pub const CHECK_CACHE: &'static str =
    "\n            ?[response] := ~cache:idx {\n                response |\n                query: $query_vec,\n                k: 1,\n                bind_distance: dist,\n                ef: 100\n            },\n            dist < 0.1\n        ";

pub const STORE_CACHE: &'static str =
    "\n            ?[id, query, response, embedding] <- [[$id, $query, $response, $embedding]]\n            :put cache { id => query, response, embedding }\n        ";

pub const ADD_NODES: &'static str =
    "\n            ?[id, content, type, path, embedding] <- $nodes\n            :put nodes { id => content, type, path, embedding }\n\n            ?[from, to, rel_type] <- $edges\n            :put edges { from, to => rel_type }\n        ";

pub const GET_NEIGHBORHOOD: &'static str =
    "\n            ?[content] := *nodes{path, content}, path = $path\n            ?[content] := *nodes{id, content}, *edges{from: $path, to: id}\n            ?[content] := *nodes{id, content}, *edges{from: id, to: $path}\n        ";

pub const GET_KV_CACHE: &'static str = "?[cache_id] := kv_cache { hash: $hash, cache_id }";

pub const SET_KV_CACHE: &'static str =
    "\n            ?[hash, cache_id, created_at] <- [[$hash, $cache_id, $now]]\n            :put kv_cache { hash => cache_id, created_at }\n        ";

pub const CHECK_SYNC: &'static str =
    "?[last_ingested, content_hash] := sync_log { path: $path, last_ingested, content_hash }";

pub const UPDATE_SYNC: &'static str =
    "\n            ?[path, last_ingested, content_hash] <- [[$path, $now, $hash]]\n            :put sync_log { path => last_ingested, content_hash }\n        ";

pub const REGISTER_SKILL: &'static str =
    "\n            ?[name, code, description, signature] <- [[$name, $code, $desc, $sig]]\n            :put skills { name, code, description, signature }\n        ";

pub const GET_SKILL: &'static str = "?[code] := *skills{name: $name, code}";

pub const CREATE_SESSION: &'static str =
    "\n            ?[id, status, depth, input, created_at] <- [[$id, $status, $depth, $input, $now]]\n            :put sessions { id => status, depth, input, created_at }\n        ";

pub const UPDATE_SESSION: &'static str =
    "\n            ?[id, status, depth, input, created_at] := *sessions{id, input, created_at}, \n                id = $id, status = $status, depth = $depth\n            :put sessions { id => status, depth, input, created_at }\n        ";

pub const ADD_SESSION_MESSAGE: &'static str =
    "\n            ?[session_id, msg_index, content] <- [[$session_id, $index, $content]]\n            :put session_messages { session_id, msg_index => content }\n        ";

pub const GET_SESSION: &'static str =
    "?[status, depth, input] := *sessions{id: $id, status, depth, input}";

pub const GET_SESSION_MESSAGES: &'static str =
    "?[content] := *session_messages{session_id: $id, msg_index, content} :sort msg_index";

pub const COUNT_NODES: &'static str = "?[count] := *nodes{id}, count = count(id)";

pub const RECORD_EVENT: &'static str =
    "\n            ?[id, op, data, timestamp, version] <- [[$id, $op, $data, $timestamp, $version]]\n            :put event_log { id => op, data, timestamp, version }\n        ";

fn param(name: &str, value: Datum) -> (out: Param)
    ensures
        out.name@ == name@,
        out.value == value,
{
    Param { name: copy_str(name), value }
}

fn text(value: &str) -> (out: Datum)
    ensures
        out@ == DatumV::Text(value@),
{
    Datum::Text(copy_str(value))
}

fn query1(script: &str, mutable: bool, first: Param) -> (out: Query)
    ensures
        out@ == (QueryV { script: script@, params: seq![(first.name@, first.value@)], mutable }),
{
    let mut params: Vec<Param> = Vec::new();
    params.push(first);
    assert(param_views(params@) =~= seq![(first.name@, first.value@)]);
    Query { script: copy_str(script), params, mutable }
}

fn query3(script: &str, mutable: bool, first: Param, second: Param, third: Param) -> (out: Query)
    ensures
        out@ == (QueryV {
            script: script@,
            params: seq![(first.name@, first.value@), (second.name@, second.value@), (third.name@, third.value@)],
            mutable,
        }),
{
    let mut params: Vec<Param> = Vec::new();
    params.push(first);
    params.push(second);
    params.push(third);
    assert(param_views(params@) =~= seq![
        (first.name@, first.value@),
        (second.name@, second.value@),
        (third.name@, third.value@),
    ]);
    Query { script: copy_str(script), params, mutable }
}

/// The lookup of the nearest cached response: one neighbour of the query's
/// embedding, kept only where it is nearer than 0.1.
pub fn check_cache(query: &str) -> (out: Query)
    ensures
        out@ == (QueryV {
            script: CHECK_CACHE@,
            params: seq![("query_vec"@, DatumV::EmbeddingOf(query@))],
            mutable: false,
        }),
{
    query1(CHECK_CACHE, false, param("query_vec", Datum::EmbeddingOf(copy_str(query))))
}

/// The insertion of a response into the cache under `id`, with the
/// embedding of the query.
pub fn store_cache(id: &str, query: &str, response: &str) -> (out: Query)
    ensures
        out@ == (QueryV {
            script: STORE_CACHE@,
            params: seq![
                ("id"@, DatumV::Text(id@)),
                ("query"@, DatumV::Text(query@)),
                ("response"@, DatumV::Text(response@)),
                ("embedding"@, DatumV::EmbeddingOf(query@)),
            ],
            mutable: true,
        }),
{
    let mut params: Vec<Param> = Vec::new();
    params.push(param("id", text(id)));
    params.push(param("query", text(query)));
    params.push(param("response", text(response)));
    params.push(param("embedding", Datum::EmbeddingOf(copy_str(query))));
    assert(param_views(params@) =~= seq![
        ("id"@, DatumV::Text(id@)),
        ("query"@, DatumV::Text(query@)),
        ("response"@, DatumV::Text(response@)),
        ("embedding"@, DatumV::EmbeddingOf(query@)),
    ]);
    Query { script: copy_str(STORE_CACHE), params, mutable: true }
}

/// The script of a search among the nodes: the `k` nearest neighbours of a
/// vector, nearest first.
pub open spec fn find_related_script(k: nat) -> Seq<char> {
    "\n            ?[content, dist] := ~nodes:idx {\n                content |\n                query: $query_vec,\n                k: "@
        + decimal(k)
        + ",\n                bind_distance: dist,\n                ef: 100\n            }\n            :sort dist\n        "@
}

/// The search for the `limit` nodes nearest to a query.
pub fn find_related(query: &str, limit: usize) -> (out: Query)
    ensures
        out@ == (QueryV {
            script: find_related_script(limit as nat),
            params: seq![("query_vec"@, DatumV::EmbeddingOf(query@))],
            mutable: false,
        }),
{
    let mut buf = chars_of(
        "\n            ?[content, dist] := ~nodes:idx {\n                content |\n                query: $query_vec,\n                k: ",
    );
    push_decimal(&mut buf, limit as u64);
    push_str(
        &mut buf,
        ",\n                bind_distance: dist,\n                ef: 100\n            }\n            :sort dist\n        ",
    );
    let script = string_of(&buf);
    query1(script.as_str(), false, param("query_vec", Datum::EmbeddingOf(copy_str(query))))
}

/// How many candidates a library search of `limit` results looks at: twice
/// as many, as far as the machine can count.
pub open spec fn candidates(limit: usize) -> usize {
    if limit > usize::MAX / 2 {
        usize::MAX
    } else {
        (limit * 2) as usize
    }
}

/// The script of a search in the library: twice as many neighbours as
/// results are scored by their distance, which counts only 0.8 for a
/// definition, and the best `limit` are kept.
pub open spec fn search_library_script(limit: usize) -> Seq<char> {
    "\n            ?[content, type, dist] := ~library:idx {\n                content, chunk_type: type |\n                query: $query_vec,\n                k: "@
        + decimal(candidates(limit) as nat)
        + ",\n                bind_distance: dist,\n                ef: 100\n            }\n            // Apply weight: boost definitions\n            ?[content, score] := ?[content, type, dist],\n                weight = if type == \"definition\" { 0.8 } else { 1.0 },\n                score = dist * weight\n            :sort score\n            :limit "@
        + decimal(limit as nat) + "\n        "@
}

/// The search for the `limit` best library entries for a query.
pub fn search_library(query: &str, limit: usize) -> (out: Query)
    ensures
        out@ == (QueryV {
            script: search_library_script(limit),
            params: seq![("query_vec"@, DatumV::EmbeddingOf(query@))],
            mutable: false,
        }),
{
    let k: usize = if limit > usize::MAX / 2 {
        usize::MAX
    } else {
        limit * 2
    };
    let mut buf = chars_of(
        "\n            ?[content, type, dist] := ~library:idx {\n                content, chunk_type: type |\n                query: $query_vec,\n                k: ",
    );
    push_decimal(&mut buf, k as u64);
    push_str(
        &mut buf,
        ",\n                bind_distance: dist,\n                ef: 100\n            }\n            // Apply weight: boost definitions\n            ?[content, score] := ?[content, type, dist],\n                weight = if type == \"definition\" { 0.8 } else { 1.0 },\n                score = dist * weight\n            :sort score\n            :limit ",
    );
    push_decimal(&mut buf, limit as u64);
    push_str(&mut buf, "\n        ");
    let script = string_of(&buf);
    query1(script.as_str(), false, param("query_vec", Datum::EmbeddingOf(copy_str(query))))
}

/// The lookup of the nodes around a key: those whose path is the key, and
/// those on either side of an edge that touches the key.
pub fn get_neighborhood(key: &str) -> (out: Query)
    ensures
        out@ == (QueryV {
            script: GET_NEIGHBORHOOD@,
            params: seq![("path"@, DatumV::Text(key@))],
            mutable: false,
        }),
{
    query1(GET_NEIGHBORHOOD, false, param("path", text(key)))
}

/// The lookup of the cache entry recorded for a hash.
pub fn get_kv_cache(hash: &str) -> (out: Query)
    ensures
        out@ == (QueryV {
            script: GET_KV_CACHE@,
            params: seq![("hash"@, DatumV::Text(hash@))],
            mutable: false,
        }),
{
    query1(GET_KV_CACHE, false, param("hash", text(hash)))
}

/// The recording of a cache entry for a hash, at the time `now`.
pub fn set_kv_cache(hash: &str, cache_id: &str, now: i64) -> (out: Query)
    ensures
        out@ == (QueryV {
            script: SET_KV_CACHE@,
            params: seq![
                ("hash"@, DatumV::Text(hash@)),
                ("cache_id"@, DatumV::Text(cache_id@)),
                ("now"@, DatumV::Int(now)),
            ],
            mutable: true,
        }),
{
    query3(
        SET_KV_CACHE,
        true,
        param("hash", text(hash)),
        param("cache_id", text(cache_id)),
        param("now", Datum::Int(now)),
    )
}

/// The lookup of what was last ingested from a path.
pub fn check_sync_status(path: &str) -> (out: Query)
    ensures
        out@ == (QueryV {
            script: CHECK_SYNC@,
            params: seq![("path"@, DatumV::Text(path@))],
            mutable: false,
        }),
{
    query1(CHECK_SYNC, false, param("path", text(path)))
}

/// The recording that the content with this hash was ingested from a path
/// at the time `now`.
pub fn update_sync_status(path: &str, hash: &str, now: i64) -> (out: Query)
    ensures
        out@ == (QueryV {
            script: UPDATE_SYNC@,
            params: seq![
                ("path"@, DatumV::Text(path@)),
                ("hash"@, DatumV::Text(hash@)),
                ("now"@, DatumV::Int(now)),
            ],
            mutable: true,
        }),
{
    query3(
        UPDATE_SYNC,
        true,
        param("path", text(path)),
        param("hash", text(hash)),
        param("now", Datum::Int(now)),
    )
}

/// The registration of a skill under its name.
pub fn register_skill(name: &str, code: &str, desc: &str, signature: &str) -> (out: Query)
    ensures
        out@ == (QueryV {
            script: REGISTER_SKILL@,
            params: seq![
                ("name"@, DatumV::Text(name@)),
                ("code"@, DatumV::Text(code@)),
                ("desc"@, DatumV::Text(desc@)),
                ("sig"@, DatumV::Text(signature@)),
            ],
            mutable: true,
        }),
{
    let mut params: Vec<Param> = Vec::new();
    params.push(param("name", text(name)));
    params.push(param("code", text(code)));
    params.push(param("desc", text(desc)));
    params.push(param("sig", text(signature)));
    assert(param_views(params@) =~= seq![
        ("name"@, DatumV::Text(name@)),
        ("code"@, DatumV::Text(code@)),
        ("desc"@, DatumV::Text(desc@)),
        ("sig"@, DatumV::Text(signature@)),
    ]);
    Query { script: copy_str(REGISTER_SKILL), params, mutable: true }
}

/// The lookup of the code of a skill.
pub fn get_skill(name: &str) -> (out: Query)
    ensures
        out@ == (QueryV {
            script: GET_SKILL@,
            params: seq![("name"@, DatumV::Text(name@))],
            mutable: false,
        }),
{
    query1(GET_SKILL, false, param("name", text(name)))
}

/// The count of all nodes.
pub fn count_nodes() -> (out: Query)
    ensures
        out@ == (QueryV { script: COUNT_NODES@, params: Seq::empty(), mutable: false }),
{
    let params: Vec<Param> = Vec::new();
    assert(param_views(params@) =~= Seq::<(Seq<char>, DatumV)>::empty());
    Query { script: copy_str(COUNT_NODES), params, mutable: false }
}

/// The first message of a session, or the empty text.
pub open spec fn first_message(session: SessionV) -> Seq<char> {
    if session.messages.len() > 0 {
        session.messages[0]
    } else {
        Seq::empty()
    }
}

/// The depth as the store holds it: a 64-bit number, which every depth of a
/// machine of at most 64 bits fits but for the very largest.
pub open spec fn stored_depth(depth: usize) -> i64 {
    if depth > i64::MAX {
        i64::MAX
    } else {
        depth as i64
    }
}

fn depth_value(depth: usize) -> (out: i64)
    ensures
        out == stored_depth(depth),
{
    if depth as u64 > 9223372036854775807u64 {
        i64::MAX
    } else {
        depth as i64
    }
}

/// The request that stores one message of a session at its index.
pub open spec fn message_query(id: Seq<char>, index: usize, content: Seq<char>) -> QueryV {
    QueryV {
        script: ADD_SESSION_MESSAGE@,
        params: seq![
            ("session_id"@, DatumV::Text(id)),
            ("index"@, DatumV::Int(stored_depth(index))),
            ("content"@, DatumV::Text(content)),
        ],
        mutable: true,
    }
}

/// The requests that persist a session: its row, then one row for each
/// message, at the message's index.
pub open spec fn session_queries(head: QueryV, session: SessionV) -> Seq<QueryV> {
    Seq::new(
        session.messages.len() + 1,
        |i: int|
            if i == 0 {
                head
            } else {
                message_query(session.id, (i - 1) as usize, session.messages[i - 1])
            },
    )
}

/// The values of a list of requests.
pub open spec fn query_views(list: Seq<Query>) -> Seq<QueryV> {
    list.map_values(|q: Query| q@)
}

/// The request that stores one message of a session at its index.
pub fn add_session_message(session_id: &str, index: usize, content: &str) -> (out: Query)
    ensures
        out@ == message_query(session_id@, index, content@),
{
    query3(
        ADD_SESSION_MESSAGE,
        true,
        param("session_id", text(session_id)),
        param("index", Datum::Int(depth_value(index))),
        param("content", text(content)),
    )
}

fn with_messages(head: Query, session: &AgentSession) -> (out: Vec<Query>)
    ensures
        query_views(out@) == session_queries(head@, session@),
{
    let mut out: Vec<Query> = Vec::new();
    out.push(head);
    let mut i: usize = 0;
    while i < session.messages.len()
        invariant
            i <= session.messages.len(),
            out@.len() == i + 1,
            forall|k: int|
                0 <= k <= i ==> (#[trigger] query_views(out@)[k]) == session_queries(
                    head@,
                    session@,
                )[k],
        decreases session.messages.len() - i,
    {
        let q = add_session_message(session.id.as_str(), i, session.messages[i].as_str());
        assert(session@.messages[i as int] == session.messages@[i as int]@);
        let ghost before = query_views(out@);
        out.push(q);
        assert(query_views(out@) =~= before.push(q@));
        i += 1;
    }
    assert(query_views(out@) =~= session_queries(head@, session@));
    out
}

/// The requests that create a session at the time `now`: its row, with the
/// first message as its input, then all its messages.
pub fn create_session(session: &AgentSession, now: i64) -> (out: Vec<Query>)
    ensures
        query_views(out@) == session_queries(
            QueryV {
                script: CREATE_SESSION@,
                params: seq![
                    ("id"@, DatumV::Text(session@.id)),
                    ("status"@, DatumV::Text(label_of(session@.status))),
                    ("depth"@, DatumV::Int(stored_depth(session.depth))),
                    ("input"@, DatumV::Text(first_message(session@))),
                    ("now"@, DatumV::Int(now)),
                ],
                mutable: true,
            },
            session@,
        ),
{
    let input = if session.messages.len() > 0 {
        assert(session@.messages[0] == session.messages@[0]@);
        session.messages[0].clone()
    } else {
        String::new()
    };
    let mut params: Vec<Param> = Vec::new();
    params.push(param("id", Datum::Text(session.id.clone())));
    params.push(param("status", Datum::Text(session.status.label())));
    params.push(param("depth", Datum::Int(depth_value(session.depth))));
    params.push(param("input", Datum::Text(input)));
    params.push(param("now", Datum::Int(now)));
    assert(param_views(params@) =~= seq![
        ("id"@, DatumV::Text(session@.id)),
        ("status"@, DatumV::Text(label_of(session@.status))),
        ("depth"@, DatumV::Int(stored_depth(session.depth))),
        ("input"@, DatumV::Text(first_message(session@))),
        ("now"@, DatumV::Int(now)),
    ]);
    with_messages(Query { script: copy_str(CREATE_SESSION), params, mutable: true }, session)
}

/// The requests that replace a stored session by a new value: its status and
/// depth, then all its messages, each at its index, so that a longer list
/// adds rows and leaves the older ones as they are.
pub fn update_session(session: &AgentSession) -> (out: Vec<Query>)
    ensures
        query_views(out@) == session_queries(
            QueryV {
                script: UPDATE_SESSION@,
                params: seq![
                    ("id"@, DatumV::Text(session@.id)),
                    ("status"@, DatumV::Text(label_of(session@.status))),
                    ("depth"@, DatumV::Int(stored_depth(session.depth))),
                ],
                mutable: true,
            },
            session@,
        ),
{
    let head = query3(
        UPDATE_SESSION,
        true,
        param("id", Datum::Text(session.id.clone())),
        param("status", Datum::Text(session.status.label())),
        param("depth", Datum::Int(depth_value(session.depth))),
    );
    with_messages(head, session)
}

/// The lookup of a session's row.
pub fn get_session(id: &str) -> (out: Query)
    ensures
        out@ == (QueryV {
            script: GET_SESSION@,
            params: seq![("id"@, DatumV::Text(id@))],
            mutable: false,
        }),
{
    query1(GET_SESSION, false, param("id", text(id)))
}

/// The lookup of a session's messages, in the order of their indices.
pub fn get_session_messages(id: &str) -> (out: Query)
    ensures
        out@ == (QueryV {
            script: GET_SESSION_MESSAGES@,
            params: seq![("id"@, DatumV::Text(id@))],
            mutable: false,
        }),
{
    query1(GET_SESSION_MESSAGES, false, param("id", text(id)))
}

} // verus!
