//! The symbols of a file: from the syntax tree where the file is Rust that
//! parses, from patterns where it is not.

use crate::knowledge::parser::{extracted_views, file_nodes, parse_rust, syntax_of, ExtractedNode,
    ExtractedV};
use crate::knowledge::scanner::FileValue;
use crate::memory::rows::{node_views, GraphNode, NodeV};
use crate::pattern::{captures, group, group_text, group_views, match_views, regex_matches};
use crate::text::{chars_of, copy_str, lowercase, push_str, replace, replaced, slice_of, str_eq,
    string_of, texts, to_lowercase};
use vstd::prelude::*;

verus! {

/// The pattern of a public function.
pub const FN_PATTERN: &'static str = "pub\\s+fn\\s+([a-zA-Z0-9_]+)";

/// The pattern of a public struct.
pub const STRUCT_PATTERN: &'static str = "pub\\s+struct\\s+([a-zA-Z0-9_]+)";

/// The pattern of a first-level heading.
pub const HEADING_PATTERN: &'static str = "(?m)^#\\s+(.+)$";

/// How many characters of a file its own node holds at most.
pub const FILE_NODE_CHARS: usize = 200;

pub struct Extractor;

/// The graph node of a node read from source code, in the file at `path`.
pub open spec fn graph_node(node: ExtractedV, path: Seq<char>) -> NodeV {
    NodeV { id: node.id, content: node.content, node_type: node.kind, path, edges: node.edges }
}

/// The graph nodes of a list of nodes read from source code.
pub open spec fn graph_nodes(nodes: Seq<ExtractedV>, path: Seq<char>) -> Seq<NodeV> {
    nodes.map_values(|n: ExtractedV| graph_node(n, path))
}

/// The nodes of the matches of a definition pattern from index `i` on: one
/// for each match, named by its first group.
pub open spec fn symbol_nodes(
    found: Seq<Seq<Option<Seq<char>>>>,
    i: int,
    prefix: Seq<char>,
    label: Seq<char>,
    kind: Seq<char>,
    path: Seq<char>,
) -> Seq<NodeV>
    decreases found.len() - i,
{
    if i < 0 || i >= found.len() {
        seq![]
    } else {
        match (group_text(found[i], 0), group_text(found[i], 1)) {
            (Some(whole), Some(name)) => seq![
                NodeV {
                    id: prefix + name,
                    content: label + whole,
                    node_type: kind,
                    path,
                    edges: seq![],
                },
            ] + symbol_nodes(found, i + 1, prefix, label, kind, path),
            _ => symbol_nodes(found, i + 1, prefix, label, kind, path),
        }
    }
}

/// The nodes of the headings from index `i` on: one for each heading, named
/// by its text in lower case with `_` for each blank.
pub open spec fn heading_nodes(found: Seq<Seq<Option<Seq<char>>>>, i: int, path: Seq<char>) -> Seq<
    NodeV,
>
    decreases found.len() - i,
{
    if i < 0 || i >= found.len() {
        seq![]
    } else {
        match (group_text(found[i], 0), group_text(found[i], 1)) {
            (Some(whole), Some(title)) => seq![
                NodeV {
                    id: "doc:"@ + replaced(lowercase(title), " "@, "_"@),
                    content: whole,
                    node_type: "markdown_heading"@,
                    path,
                    edges: seq![],
                },
            ] + heading_nodes(found, i + 1, path),
            _ => heading_nodes(found, i + 1, path),
        }
    }
}

/// The matches of a search, or none where the pattern was refused.
pub open spec fn matches_or_none(found: Option<Seq<Seq<Option<Seq<char>>>>>) -> Seq<
    Seq<Option<Seq<char>>>,
> {
    match found {
        Some(list) => list,
        None => seq![],
    }
}

/// The node that stands for a file as a whole: its first 200 characters.
pub open spec fn file_node(content: Seq<char>, path: Seq<char>) -> NodeV {
    NodeV {
        id: "file:"@ + path,
        content: if content.len() > FILE_NODE_CHARS {
            content.take(FILE_NODE_CHARS as int)
        } else {
            content
        },
        node_type: "file"@,
        path,
        edges: seq![],
    }
}

/// What the patterns find in a file: in Rust the public functions, then
/// the public structs; in Markdown the first-level headings.
pub open spec fn pattern_nodes(content: Seq<char>, ext: Seq<char>, path: Seq<char>) -> Seq<NodeV> {
    if ext == "rs"@ {
        symbol_nodes(
            matches_or_none(regex_matches(FN_PATTERN@, content)),
            0,
            "fn:"@,
            "Function definition: "@,
            "fn"@,
            path,
        ) + symbol_nodes(
            matches_or_none(regex_matches(STRUCT_PATTERN@, content)),
            0,
            "struct:"@,
            "Struct definition: "@,
            "struct"@,
            path,
        )
    } else if ext == "md"@ {
        heading_nodes(matches_or_none(regex_matches(HEADING_PATTERN@, content)), 0, path)
    } else {
        seq![]
    }
}

/// The nodes that the patterns give for a file: what they find, and where
/// they find nothing, the node of the file itself. There is always at least
/// one.
pub open spec fn regex_nodes(content: Seq<char>, ext: Seq<char>, path: Seq<char>) -> Seq<NodeV> {
    if pattern_nodes(content, ext, path).len() > 0 {
        pattern_nodes(content, ext, path)
    } else {
        seq![file_node(content, path)]
    }
}

/// The symbols of a file: for Rust that parses, the nodes of its syntax
/// tree; for anything else, what the patterns give.
pub open spec fn symbols_of(content: Seq<char>, ext: Seq<char>, path: Seq<char>) -> Seq<NodeV> {
    if ext == "rs"@ {
        match syntax_of(content) {
            Some(items) => graph_nodes(file_nodes(items), path),
            None => regex_nodes(content, ext, path),
        }
    } else {
        regex_nodes(content, ext, path)
    }
}

fn no_edges() -> (out: Vec<String>)
    ensures
        texts(out@) == Seq::<Seq<char>>::empty(),
{
    let out: Vec<String> = Vec::new();
    assert(texts(out@) =~= Seq::<Seq<char>>::empty());
    out
}

fn concat(a: &str, b: &str) -> (out: String)
    ensures
        out@ == a@ + b@,
{
    let mut buf = chars_of(a);
    push_str(&mut buf, b);
    string_of(&buf)
}

fn search(pattern: &str, content: &str) -> (out: Vec<Vec<Option<String>>>)
    ensures
        match_views(out@) == matches_or_none(regex_matches(pattern@, content@)),
{
    match captures(pattern, content) {
        Some(found) => found,
        None => {
            let out: Vec<Vec<Option<String>>> = Vec::new();
            assert(match_views(out@) =~= Seq::<Seq<Option<Seq<char>>>>::empty());
            out
        },
    }
}

impl Extractor {
    /// The nodes of the matches of a definition pattern.
    pub fn symbols_from(
        found: &Vec<Vec<Option<String>>>,
        prefix: &str,
        label: &str,
        kind: &str,
        path: &str,
        out: &mut Vec<GraphNode>,
    )
        ensures
            node_views(final(out)@) == node_views(old(out)@) + symbol_nodes(
                match_views(found@),
                0,
                prefix@,
                label@,
                kind@,
                path@,
            ),
    {
        let ghost all = match_views(found@);
        let ghost start = node_views(out@);
        let mut i: usize = 0;
        while i < found.len()
            invariant
                i <= found.len(),
                all == match_views(found@),
                start + symbol_nodes(all, 0, prefix@, label@, kind@, path@) == node_views(out@)
                    + symbol_nodes(all, i as int, prefix@, label@, kind@, path@),
            decreases found.len() - i,
        {
            assert(all[i as int] == group_views(found@[i as int]@));
            match (group(&found[i], 0), group(&found[i], 1)) {
                (Some(whole), Some(name)) => {
                    let node = GraphNode {
                        id: concat(prefix, name.as_str()),
                        content: concat(label, whole.as_str()),
                        node_type: copy_str(kind),
                        path: copy_str(path),
                        edges: no_edges(),
                    };
                    let ghost before = node_views(out@);
                    out.push(node);
                    assert(node_views(out@) =~= before.push(node@));
                    assert(before + (seq![node@] + symbol_nodes(
                        all,
                        i + 1,
                        prefix@,
                        label@,
                        kind@,
                        path@,
                    )) =~= before.push(node@) + symbol_nodes(
                        all,
                        i + 1,
                        prefix@,
                        label@,
                        kind@,
                        path@,
                    ));
                },
                _ => {},
            }
            i += 1;
        }
        assert(node_views(out@) + Seq::<NodeV>::empty() =~= node_views(out@));
    }

    /// The nodes of the headings found.
    pub fn headings_from(found: &Vec<Vec<Option<String>>>, path: &str, out: &mut Vec<GraphNode>)
        ensures
            node_views(final(out)@) == node_views(old(out)@) + heading_nodes(
                match_views(found@),
                0,
                path@,
            ),
    {
        let ghost all = match_views(found@);
        let ghost start = node_views(out@);
        let mut i: usize = 0;
        while i < found.len()
            invariant
                i <= found.len(),
                all == match_views(found@),
                start + heading_nodes(all, 0, path@) == node_views(out@) + heading_nodes(
                    all,
                    i as int,
                    path@,
                ),
            decreases found.len() - i,
        {
            assert(all[i as int] == group_views(found@[i as int]@));
            match (group(&found[i], 0), group(&found[i], 1)) {
                (Some(whole), Some(title)) => {
                    let lower = to_lowercase(title.as_str());
                    let slug = replace(
                        &chars_of(lower.as_str()),
                        &chars_of(" "),
                        &chars_of("_"),
                    );
                    let mut id = chars_of("doc:");
                    crate::text::push_all(&mut id, &slug);
                    let node = GraphNode {
                        id: string_of(&id),
                        content: whole.clone(),
                        node_type: copy_str("markdown_heading"),
                        path: copy_str(path),
                        edges: no_edges(),
                    };
                    let ghost before = node_views(out@);
                    out.push(node);
                    assert(node_views(out@) =~= before.push(node@));
                    assert(before + (seq![node@] + heading_nodes(all, i + 1, path@))
                        =~= before.push(node@) + heading_nodes(all, i + 1, path@));
                },
                _ => {},
            }
            i += 1;
        }
        assert(node_views(out@) + Seq::<NodeV>::empty() =~= node_views(out@));
    }

    /// The nodes that the patterns give for a file.
    pub fn extract_regex(content: &str, ext: &str, path: &str) -> (out: Vec<GraphNode>)
        ensures
            node_views(out@) == regex_nodes(content@, ext@, path@),
            out@.len() >= 1,
    {
        let mut out: Vec<GraphNode> = Vec::new();
        assert(node_views(out@) =~= Seq::<NodeV>::empty());
        if str_eq(ext, "rs") {
            let functions = search(FN_PATTERN, content);
            Extractor::symbols_from(&functions, "fn:", "Function definition: ", "fn", path, &mut out);
            let structs = search(STRUCT_PATTERN, content);
            Extractor::symbols_from(
                &structs,
                "struct:",
                "Struct definition: ",
                "struct",
                path,
                &mut out,
            );
            assert(node_views(out@) =~= pattern_nodes(content@, ext@, path@));
        } else if str_eq(ext, "md") {
            let headings = search(HEADING_PATTERN, content);
            Extractor::headings_from(&headings, path, &mut out);
            assert(node_views(out@) =~= pattern_nodes(content@, ext@, path@));
        }
        if out.len() == 0 {
            let text = chars_of(content);
            let head = if text.len() > FILE_NODE_CHARS {
                slice_of(&text, 0, FILE_NODE_CHARS)
            } else {
                text
            };
            let node = GraphNode {
                id: concat("file:", path),
                content: string_of(&head),
                node_type: copy_str("file"),
                path: copy_str(path),
                edges: no_edges(),
            };
            out.push(node);
            assert(node_views(out@) =~= seq![node@]);
            assert(node@ == file_node(content@, path@)) by {
                assert(head@ =~= file_node(content@, path@).content);
            }
        }
        out
    }

    /// The graph nodes of the nodes read from source code.
    pub fn to_graph_nodes(nodes: Vec<ExtractedNode>, path: &str) -> (out: Vec<GraphNode>)
        ensures
            node_views(out@) == graph_nodes(extracted_views(nodes@), path@),
    {
        let mut out: Vec<GraphNode> = Vec::new();
        let ghost wanted = graph_nodes(extracted_views(nodes@), path@);
        let mut i: usize = 0;
        while i < nodes.len()
            invariant
                i <= nodes.len(),
                wanted == graph_nodes(extracted_views(nodes@), path@),
                node_views(out@) == wanted.take(i as int),
            decreases nodes.len() - i,
        {
            let n = &nodes[i];
            let node = GraphNode {
                id: n.id.clone(),
                content: n.content.clone(),
                node_type: n.kind.clone(),
                path: copy_str(path),
                edges: n.edges.clone(),
            };
            assert(texts(node.edges@) =~= texts(n.edges@)) by {
                assert(node.edges@ == n.edges@);
            }
            let ghost before = node_views(out@);
            out.push(node);
            assert(node_views(out@) =~= before.push(node@));
            assert(wanted.take(i + 1) =~= wanted.take(i as int).push(graph_node(n@, path@)));
            i += 1;
        }
        assert(wanted.take(nodes.len() as int) =~= wanted);
        out
    }

    /// The symbols of a file. They depend on the file's content, extension
    /// and path alone: the same file gives the same nodes, with the same
    /// ids, every time.
    pub fn extract_symbols(file: &FileValue) -> (out: Vec<GraphNode>)
        ensures
            node_views(out@) == symbols_of(file.content@, file.extension@, file.path@),
    {
        if str_eq(file.extension.as_str(), "rs") {
            match parse_rust(file.content.as_str()) {
                Some(nodes) => Extractor::to_graph_nodes(nodes, file.path.as_str()),
                None => Extractor::extract_regex(
                    file.content.as_str(),
                    file.extension.as_str(),
                    file.path.as_str(),
                ),
            }
        } else {
            Extractor::extract_regex(
                file.content.as_str(),
                file.extension.as_str(),
                file.path.as_str(),
            )
        }
    }
}

} // verus!
