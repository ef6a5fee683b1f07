//! The rows that the store returns, and what the memory reads from them.

use crate::bus::EventDraft;
use crate::json::{members_of, text_array, values, Json, JsonV, Member, MemberV};
use crate::memory::requests::{param_views, table_view, Datum, DatumV, Param, Query, QueryV,
    ADD_NODES};
use crate::session::{status_of, AgentSession, SessionStatus, SessionV};
use crate::text::{chars_of, copy_str, decimal, parse_i64, push_decimal, signed_decimal,
    string_of, texts};
use vstd::prelude::*;

verus! {

/// One value of a row. A number holds the text that the store prints for it.
#[derive(Debug, Clone, PartialEq)]
pub enum Cell {
    Text(String),
    Number(String),
    Other,
}

/// The mathematical value of a [`Cell`].
pub enum CellV {
    Text(Seq<char>),
    Number(Seq<char>),
    Other,
}

impl View for Cell {
    type V = CellV;

    open spec fn view(&self) -> CellV {
        match self {
            Cell::Text(t) => CellV::Text(t@),
            Cell::Number(n) => CellV::Number(n@),
            Cell::Other => CellV::Other,
        }
    }
}

/// The values of one row.
pub open spec fn row_view(row: Seq<Cell>) -> Seq<CellV> {
    row.map_values(|c: Cell| c@)
}

/// The values of a list of rows.
pub open spec fn rows_view(rows: Seq<Vec<Cell>>) -> Seq<Seq<CellV>> {
    rows.map_values(|r: Vec<Cell>| row_view(r@))
}

/// The cell in column `c` of a row, if the row is that wide.
pub open spec fn cell_at(row: Seq<CellV>, c: int) -> Option<CellV> {
    if 0 <= c < row.len() {
        Some(row[c])
    } else {
        None
    }
}

/// The text in column `c` of a row, if there is a text there.
pub open spec fn text_at(row: Seq<CellV>, c: int) -> Option<Seq<char>> {
    match cell_at(row, c) {
        Some(CellV::Text(t)) => Some(t),
        _ => None,
    }
}

/// The text in the first column of the first row.
pub open spec fn first_text_of(rows: Seq<Seq<CellV>>) -> Option<Seq<char>> {
    if rows.len() > 0 {
        text_at(rows[0], 0)
    } else {
        None
    }
}

/// The texts that the rows from index `i` on hold in their first column, in
/// order; rows without a text there are passed over.
pub open spec fn column_from(rows: Seq<Seq<CellV>>, i: int) -> Seq<Seq<char>>
    decreases rows.len() - i,
{
    if i < 0 || i >= rows.len() {
        seq![]
    } else {
        match text_at(rows[i], 0) {
            Some(t) => seq![t] + column_from(rows, i + 1),
            None => column_from(rows, i + 1),
        }
    }
}

/// The whole number that a number cell writes, or 0 where the cell is no
/// number or writes no whole number that fits.
pub open spec fn int_at(row: Seq<CellV>, c: int) -> i64 {
    match cell_at(row, c) {
        Some(CellV::Number(t)) => if exists|n: i64| t == signed_decimal(n as int) {
            choose|n: i64| t == signed_decimal(n as int)
        } else {
            0
        },
        _ => 0,
    }
}

fn text_cell(row: &Vec<Cell>, c: usize) -> (out: Option<&String>)
    ensures
        match out {
            Some(t) => text_at(row_view(row@), c as int) == Some(t@),
            None => text_at(row_view(row@), c as int) is None,
        },
{
    if c < row.len() {
        assert(row_view(row@)[c as int] == row@[c as int]@);
        match &row[c] {
            Cell::Text(t) => Some(t),
            _ => None,
        }
    } else {
        None
    }
}

fn int_cell(row: &Vec<Cell>, c: usize) -> (out: i64)
    ensures
        out == int_at(row_view(row@), c as int),
{
    if c < row.len() {
        assert(row_view(row@)[c as int] == row@[c as int]@);
        match &row[c] {
            Cell::Number(t) => match parse_i64(&chars_of(t.as_str())) {
                Some(n) => {
                    proof {
                        let w = choose|m: i64| t@ == signed_decimal(m as int);
                        crate::text::lemma_signed_decimal_injective(n as int, w as int);
                    }
                    n
                },
                None => 0,
            },
            _ => 0,
        }
    } else {
        0
    }
}

/// The text in the first column of the first row: the answer of a lookup
/// that gives at most one text.
pub fn first_text(rows: &Vec<Vec<Cell>>) -> (out: Option<String>)
    ensures
        match out {
            Some(t) => first_text_of(rows_view(rows@)) == Some(t@),
            None => first_text_of(rows_view(rows@)) is None,
        },
{
    if rows.len() > 0 {
        assert(rows_view(rows@)[0] == row_view(rows@[0]@));
        match text_cell(&rows[0], 0) {
            Some(t) => Some(t.clone()),
            None => None,
        }
    } else {
        None
    }
}

/// The texts in the first column of the rows, in order: the answer of a
/// search or of a listing.
pub fn column_texts(rows: &Vec<Vec<Cell>>) -> (out: Vec<String>)
    ensures
        texts(out@) == column_from(rows_view(rows@), 0),
{
    let mut out: Vec<String> = Vec::new();
    let ghost all = rows_view(rows@);
    let mut i: usize = 0;
    assert(texts(out@) + column_from(all, 0) =~= column_from(all, 0));
    while i < rows.len()
        invariant
            i <= rows.len(),
            all == rows_view(rows@),
            column_from(all, 0) == texts(out@) + column_from(all, i as int),
        decreases rows.len() - i,
    {
        assert(all[i as int] == row_view(rows@[i as int]@));
        match text_cell(&rows[i], 0) {
            Some(t) => {
                let ghost before = texts(out@);
                out.push(t.clone());
                assert(texts(out@) =~= before.push(t@));
                assert(before + (seq![t@] + column_from(all, i + 1)) =~= before.push(t@)
                    + column_from(all, i + 1));
            },
            None => {},
        }
        i += 1;
    }
    assert(texts(out@) + Seq::<Seq<char>>::empty() =~= texts(out@));
    out
}

/// What the sync log says of a path: the time and the hash of the first
/// row, where there is a row and its hash is a text that is not empty.
pub open spec fn sync_status_of(rows: Seq<Seq<CellV>>) -> Option<(i64, Seq<char>)> {
    if rows.len() == 0 {
        None
    } else {
        match text_at(rows[0], 1) {
            Some(hash) => if hash.len() > 0 {
                Some((int_at(rows[0], 0), hash))
            } else {
                None
            },
            None => None,
        }
    }
}

/// Reads the answer of a sync log lookup.
pub fn decode_sync_status(rows: &Vec<Vec<Cell>>) -> (out: Option<(i64, String)>)
    ensures
        match out {
            Some((at, hash)) => sync_status_of(rows_view(rows@)) == Some((at, hash@)),
            None => sync_status_of(rows_view(rows@)) is None,
        },
{
    if rows.len() == 0 {
        return None;
    }
    assert(rows_view(rows@)[0] == row_view(rows@[0]@));
    let at = int_cell(&rows[0], 0);
    match text_cell(&rows[0], 1) {
        Some(hash) => {
            if hash.as_str().is_empty() {
                None
            } else {
                Some((at, hash.clone()))
            }
        },
        None => None,
    }
}

/// The label in a session row; a row without one counts as idle.
pub open spec fn label_at(row: Seq<CellV>) -> Seq<char> {
    match text_at(row, 0) {
        Some(t) => t,
        None => "Idle"@,
    }
}

/// The depth in a session row; what is no count that fits counts as 0.
pub open spec fn depth_at(row: Seq<CellV>) -> nat {
    if 0 <= int_at(row, 1) <= usize::MAX {
        int_at(row, 1) as nat
    } else {
        0
    }
}

/// The session that the answers of the two session lookups describe: none
/// without a session row; else the status and depth of that row and the
/// messages of the message rows, in their order.
pub open spec fn session_of(
    id: Seq<char>,
    rows: Seq<Seq<CellV>>,
    message_rows: Seq<Seq<CellV>>,
) -> Option<SessionV> {
    if rows.len() == 0 {
        None
    } else {
        Some(
            SessionV {
                id,
                messages: column_from(message_rows, 0),
                depth: depth_at(rows[0]),
                status: status_of(label_at(rows[0])),
            },
        )
    }
}

/// Reads a session from the answers of the two session lookups.
pub fn decode_session(id: &str, rows: &Vec<Vec<Cell>>, message_rows: &Vec<Vec<Cell>>) -> (out:
    Option<AgentSession>)
    ensures
        match out {
            Some(s) => session_of(id@, rows_view(rows@), rows_view(message_rows@)) == Some(s@),
            None => session_of(id@, rows_view(rows@), rows_view(message_rows@)) is None,
        },
{
    if rows.len() == 0 {
        return None;
    }
    assert(rows_view(rows@)[0] == row_view(rows@[0]@));
    let status = match text_cell(&rows[0], 0) {
        Some(label) => SessionStatus::from_label(label.as_str()),
        None => SessionStatus::from_label("Idle"),
    };
    let stored = int_cell(&rows[0], 1);
    let depth: usize = if stored < 0 {
        0
    } else if stored as u64 > usize::MAX as u64 {
        0
    } else {
        stored as usize
    };
    Some(
        AgentSession { id: copy_str(id), messages: column_texts(message_rows), depth, status },
    )
}

/// One symbol, document or lesson in the knowledge graph, with the ids of
/// the nodes it points to.
#[derive(Debug, Clone, PartialEq)]
pub struct GraphNode {
    pub id: String,
    pub content: String,
    pub node_type: String,
    pub path: String,
    pub edges: Vec<String>,
}

/// The mathematical value of a [`GraphNode`].
pub struct NodeV {
    pub id: Seq<char>,
    pub content: Seq<char>,
    pub node_type: Seq<char>,
    pub path: Seq<char>,
    pub edges: Seq<Seq<char>>,
}

impl View for GraphNode {
    type V = NodeV;

    open spec fn view(&self) -> NodeV {
        NodeV {
            id: self.id@,
            content: self.content@,
            node_type: self.node_type@,
            path: self.path@,
            edges: texts(self.edges@),
        }
    }
}

/// The values of a list of nodes.
pub open spec fn node_views(nodes: Seq<GraphNode>) -> Seq<NodeV> {
    nodes.map_values(|n: GraphNode| n@)
}

/// The row of one node: its id, content, type and path.
pub open spec fn node_row(node: NodeV) -> Seq<Seq<char>> {
    seq![node.id, node.content, node.node_type, node.path]
}

/// The rows of the nodes, in order.
pub open spec fn node_rows(nodes: Seq<NodeV>) -> Seq<Seq<Seq<char>>> {
    nodes.map_values(|n: NodeV| node_row(n))
}

/// The rows of the edges that leave one node: one for each target, in
/// order, each of the kind `related`.
pub open spec fn edges_of(node: NodeV) -> Seq<Seq<Seq<char>>> {
    node.edges.map_values(|target: Seq<char>| seq![node.id, target, "related"@])
}

/// The rows of the edges that leave the nodes from index `i` on.
pub open spec fn edge_rows_from(nodes: Seq<NodeV>, i: int) -> Seq<Seq<Seq<char>>>
    decreases nodes.len() - i,
{
    if i < 0 || i >= nodes.len() {
        seq![]
    } else {
        edges_of(nodes[i]) + edge_rows_from(nodes, i + 1)
    }
}

/// The request that writes a batch of nodes: every node's row with the
/// embedding of its content, which are computed in one batch, and every
/// edge, in one script.
pub open spec fn add_nodes_query(nodes: Seq<NodeV>) -> QueryV {
    QueryV {
        script: ADD_NODES@,
        params: seq![
            ("nodes"@, DatumV::EmbeddedRows { rows: node_rows(nodes), source: 1 }),
            ("edges"@, DatumV::Rows(edge_rows_from(nodes, 0))),
        ],
        mutable: true,
    }
}

/// The paths of the nodes, in order.
pub open spec fn node_paths(nodes: Seq<NodeV>) -> Seq<Seq<char>> {
    nodes.map_values(|n: NodeV| n.path)
}

/// The event that records a batch of nodes: how many there were and their
/// paths.
pub open spec fn add_nodes_event(nodes: Seq<NodeV>) -> JsonV {
    JsonV::Object(
        seq![
            MemberV { key: "count"@, value: JsonV::Number(decimal(nodes.len())) },
            MemberV { key: "paths"@, value: text_array(node_paths(nodes)) },
        ],
    )
}

/// A batch write of nodes: the request, and the one event that records the
/// whole batch.
#[derive(Debug, Clone, PartialEq)]
pub struct NodeBatch {
    pub query: Query,
    pub event: EventDraft,
}

fn row4(a: &String, b: &String, c: &String, d: &String) -> (out: Vec<String>)
    ensures
        texts(out@) == seq![a@, b@, c@, d@],
{
    let mut out: Vec<String> = Vec::new();
    out.push(a.clone());
    out.push(b.clone());
    out.push(c.clone());
    out.push(d.clone());
    assert(texts(out@) =~= seq![a@, b@, c@, d@]);
    out
}

fn row3(a: &String, b: &String, c: &str) -> (out: Vec<String>)
    ensures
        texts(out@) == seq![a@, b@, c@],
{
    let mut out: Vec<String> = Vec::new();
    out.push(a.clone());
    out.push(b.clone());
    out.push(copy_str(c));
    assert(texts(out@) =~= seq![a@, b@, c@]);
    out
}

/// Writes a batch of nodes: `None` for an empty batch, which writes
/// nothing; else the one request and the one event of the batch.
pub fn batch_add_nodes(nodes: &Vec<GraphNode>) -> (out: Option<NodeBatch>)
    ensures
        match out {
            None => nodes@.len() == 0,
            Some(batch) => {
                &&& nodes@.len() > 0
                &&& batch.query@ == add_nodes_query(node_views(nodes@))
                &&& batch.event.op@ == "batch_add_nodes"@
                &&& batch.event.data@ == add_nodes_event(node_views(nodes@))
            },
        },
{
    if nodes.len() == 0 {
        return None;
    }
    let ghost all = node_views(nodes@);
    let mut node_table: Vec<Vec<String>> = Vec::new();
    let mut edge_table: Vec<Vec<String>> = Vec::new();
    let mut paths: Vec<String> = Vec::new();
    let mut i: usize = 0;
    assert(table_view(edge_table@) + edge_rows_from(all, 0) =~= edge_rows_from(all, 0));
    while i < nodes.len()
        invariant
            i <= nodes.len(),
            all == node_views(nodes@),
            table_view(node_table@) == node_rows(all).take(i as int),
            texts(paths@) == node_paths(all).take(i as int),
            edge_rows_from(all, 0) == table_view(edge_table@) + edge_rows_from(all, i as int),
        decreases nodes.len() - i,
    {
        let node = &nodes[i];
        assert(all[i as int] == node@);
        let ghost rows_before = table_view(node_table@);
        let row = row4(&node.id, &node.content, &node.node_type, &node.path);
        node_table.push(row);
        assert(table_view(node_table@) =~= rows_before.push(node_row(node@)));
        assert(node_rows(all).take(i + 1) =~= node_rows(all).take(i as int).push(
            node_row(node@),
        ));
        let ghost paths_before = texts(paths@);
        paths.push(node.path.clone());
        assert(texts(paths@) =~= paths_before.push(node.path@));
        assert(node_paths(all).take(i + 1) =~= node_paths(all).take(i as int).push(node.path@));
        let ghost edges_before = table_view(edge_table@);
        let mut k: usize = 0;
        while k < node.edges.len()
            invariant
                k <= node.edges.len(),
                table_view(edge_table@) == edges_before + edges_of(node@).take(k as int),
            decreases node.edges.len() - k,
        {
            let ghost so_far = table_view(edge_table@);
            let edge = row3(&node.id, &node.edges[k], "related");
            edge_table.push(edge);
            assert(table_view(edge_table@) =~= so_far.push(texts(edge@)));
            assert(edges_of(node@).take(k + 1) =~= edges_of(node@).take(k as int).push(
                texts(edge@),
            ));
            k += 1;
        }
        assert(edges_of(node@).take(node.edges.len() as int) =~= edges_of(node@));
        assert(edges_before + (edges_of(node@) + edge_rows_from(all, i + 1)) =~= (edges_before
            + edges_of(node@)) + edge_rows_from(all, i + 1));
        i += 1;
    }
    assert(node_rows(all).take(nodes.len() as int) =~= node_rows(all));
    assert(node_paths(all).take(nodes.len() as int) =~= node_paths(all));
    assert(table_view(edge_table@) + Seq::<Seq<Seq<char>>>::empty() =~= table_view(edge_table@));
    let mut params: Vec<Param> = Vec::new();
    params.push(
        Param {
            name: copy_str("nodes"),
            value: Datum::EmbeddedRows { rows: node_table, source: 1 },
        },
    );
    params.push(Param { name: copy_str("edges"), value: Datum::Rows(edge_table) });
    assert(param_views(params@) =~= add_nodes_query(all).params);
    let mut count: Vec<char> = Vec::new();
    push_decimal(&mut count, nodes.len() as u64);
    assert(count@ =~= decimal(nodes@.len()));
    let mut members: Vec<Member> = Vec::new();
    members.push(Member { key: copy_str("count"), value: Json::Number(string_of(&count)) });
    members.push(Member { key: copy_str("paths"), value: Json::strings(&paths) });
    assert(members_of(members@) =~= add_nodes_event(all)->Object_0);
    Some(
        NodeBatch {
            query: Query { script: copy_str(ADD_NODES), params, mutable: true },
            event: EventDraft { op: copy_str("batch_add_nodes"), data: Json::object(members) },
        },
    )
}


/// A node that stands for itself rather than for a place in a file: a
/// lesson or a heuristic. Its path is `global` and it has no edges.
pub open spec fn note_node(id: Seq<char>, kind: Seq<char>, text: Seq<char>) -> NodeV {
    NodeV { id, content: text, node_type: kind, path: "global"@, edges: seq![] }
}

fn note(id: String, kind: &str, text: &str) -> (out: GraphNode)
    ensures
        out@ == note_node(id@, kind@, text@),
{
    let edges: Vec<String> = Vec::new();
    assert(texts(edges@) =~= Seq::<Seq<char>>::empty());
    GraphNode {
        id,
        content: copy_str(text),
        node_type: copy_str(kind),
        path: copy_str("global"),
        edges,
    }
}

/// The node of a lesson, under a fresh id.
pub fn store_lesson(lesson: &str) -> (out: GraphNode)
    ensures
        out@ == note_node(out.id@, "lesson"@, lesson@),
        out.id@.len() == 36,
{
    note(crate::session::fresh_id(), "lesson", lesson)
}

/// The node of a heuristic, under a fresh id.
pub fn store_heuristic(heuristic: &str) -> (out: GraphNode)
    ensures
        out@ == note_node(out.id@, "heuristic"@, heuristic@),
        out.id@.len() == 36,
{
    note(crate::session::fresh_id(), "heuristic", heuristic)
}

/// A write to the cache: the request, and the event that records it.
#[derive(Debug, Clone, PartialEq)]
pub struct CacheWrite {
    pub query: Query,
    pub event: EventDraft,
}

/// Stores a response in the cache under a fresh id: the request carries the
/// query, its embedding and the response; the event records the query and
/// the response.
pub fn store_cache(query: &str, response: &str) -> (out: CacheWrite)
    ensures
        out.query@.script == crate::memory::requests::STORE_CACHE@,
        out.query@.mutable,
        out.query@.params.len() == 4,
        out.query@.params[0].0 == "id"@,
        out.query@.params[0].1 matches DatumV::Text(id) && id.len() == 36,
        out.query@.params[1] == ("query"@, DatumV::Text(query@)),
        out.query@.params[2] == ("response"@, DatumV::Text(response@)),
        out.query@.params[3] == ("embedding"@, DatumV::EmbeddingOf(query@)),
        out.event.op@ == "store_cache"@,
        out.event.data@ == crate::json::object2(
            "query"@,
            JsonV::Text(query@),
            "response"@,
            JsonV::Text(response@),
        ),
{
    let id = crate::session::fresh_id();
    CacheWrite {
        query: crate::memory::requests::store_cache(id.as_str(), query, response),
        event: EventDraft {
            op: copy_str("store_cache"),
            data: Json::object_of2("query", Json::text(query), "response", Json::text(response)),
        },
    }
}

} // verus!
