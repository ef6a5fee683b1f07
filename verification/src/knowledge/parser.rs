//! The reading of Rust source: the items of a file, as `syn` parses them,
//! become nodes of the graph, with the names they use as edges.

use crate::pattern::{captures, group, group_text, group_views, match_views, regex_matches};
use crate::sorting::{sorted_set, sorted_unique, strictly_sorted};
use crate::text::{chars_of, copy_str, push_str, replace, replaced, str_eq, string_of, texts};
use quote::ToTokens;
use syn::{ImplItem, Item, Type};
use vstd::prelude::*;

verus! {

/// One node read from source code.
#[derive(Debug, Clone, PartialEq)]
pub struct ExtractedNode {
    pub id: String,
    pub kind: String,
    pub signature: String,
    pub content: String,
    pub edges: Vec<String>,
}

/// The mathematical value of an [`ExtractedNode`].
pub struct ExtractedV {
    pub id: Seq<char>,
    pub kind: Seq<char>,
    pub signature: Seq<char>,
    pub content: Seq<char>,
    pub edges: Seq<Seq<char>>,
}

impl View for ExtractedNode {
    type V = ExtractedV;

    open spec fn view(&self) -> ExtractedV {
        ExtractedV {
            id: self.id@,
            kind: self.kind@,
            signature: self.signature@,
            content: self.content@,
            edges: texts(self.edges@),
        }
    }
}

/// The values of a list of nodes.
pub open spec fn extracted_views(nodes: Seq<ExtractedNode>) -> Seq<ExtractedV> {
    nodes.map_values(|n: ExtractedNode| n@)
}

/// A function or a method as the parser saw it: its name, and the tokens of
/// its signature, of the whole of it and of its body, as text.
#[derive(Debug, PartialEq)]
pub struct RustFunction {
    pub name: String,
    pub signature: String,
    pub content: String,
    pub body: String,
}

/// The mathematical value of a [`RustFunction`].
pub struct FunctionV {
    pub name: Seq<char>,
    pub signature: Seq<char>,
    pub content: Seq<char>,
    pub body: Seq<char>,
}

impl View for RustFunction {
    type V = FunctionV;

    open spec fn view(&self) -> FunctionV {
        FunctionV {
            name: self.name@,
            signature: self.signature@,
            content: self.content@,
            body: self.body@,
        }
    }
}

/// An `impl` block as the parser saw it: the last segment of the type it is
/// for, where that type is a path; the last segment of the trait, where it
/// implements one; and everything it holds, in order.
#[derive(Debug, PartialEq)]
pub struct RustImpl {
    pub self_type: Segment,
    pub trait_name: Segment,
    pub members: Vec<ImplMember>,
}

/// One thing that an `impl` block holds: a function, or anything else.
#[derive(Debug, PartialEq)]
pub enum ImplMember {
    Function(RustFunction),
    Other,
}

/// The mathematical value of an [`ImplMember`].
pub enum ImplMemberV {
    Function(FunctionV),
    Other,
}

impl View for ImplMember {
    type V = ImplMemberV;

    open spec fn view(&self) -> ImplMemberV {
        match self {
            ImplMember::Function(f) => ImplMemberV::Function(f@),
            ImplMember::Other => ImplMemberV::Other,
        }
    }
}

/// The values of what an `impl` block holds.
pub open spec fn member_views(list: Seq<ImplMember>) -> Seq<ImplMemberV> {
    list.map_values(|m: ImplMember| m@)
}

/// The last segment of a path, where there is a path.
#[derive(Debug, PartialEq)]
pub enum Segment {
    Name(String),
    Absent,
}

/// The mathematical value of a [`Segment`].
pub enum SegmentV {
    Name(Seq<char>),
    Absent,
}

impl View for Segment {
    type V = SegmentV;

    open spec fn view(&self) -> SegmentV {
        match self {
            Segment::Name(n) => SegmentV::Name(n@),
            Segment::Absent => SegmentV::Absent,
        }
    }
}

/// The mathematical value of a [`RustImpl`].
pub struct ImplV {
    pub self_type: SegmentV,
    pub trait_name: SegmentV,
    pub members: Seq<ImplMemberV>,
}

impl View for RustImpl {
    type V = ImplV;

    open spec fn view(&self) -> ImplV {
        ImplV {
            self_type: self.self_type@,
            trait_name: self.trait_name@,
            members: member_views(self.members@),
        }
    }
}

/// One item of a source file as the parser saw it.
#[derive(Debug, PartialEq)]
pub enum RustItem {
    Function(RustFunction),
    Struct { name: String, content: String },
    Enum { name: String, content: String },
    Trait { name: String, content: String },
    Impl(RustImpl),
    /// An inline module with its items.
    Module(Vec<RustItem>),
    /// Anything else: a constant, a static, an alias, an import and so on.
    /// Items that lie inside one, in a block of its initialiser or of its
    /// type, are not read.
    Other,
}

/// The mathematical value of a [`RustItem`].
pub enum ItemV {
    Function(FunctionV),
    Struct { name: Seq<char>, content: Seq<char> },
    Enum { name: Seq<char>, content: Seq<char> },
    Trait { name: Seq<char>, content: Seq<char> },
    Impl(ImplV),
    Module(Seq<ItemV>),
    Other,
}

impl View for RustItem {
    type V = ItemV;

    open spec fn view(&self) -> ItemV
        decreases self,
    {
        match self {
            RustItem::Function(f) => ItemV::Function(f@),
            RustItem::Struct { name, content } => ItemV::Struct { name: name@, content: content@ },
            RustItem::Enum { name, content } => ItemV::Enum { name: name@, content: content@ },
            RustItem::Trait { name, content } => ItemV::Trait { name: name@, content: content@ },
            RustItem::Impl(block) => ItemV::Impl(block@),
            RustItem::Module(items) => ItemV::Module(
                Seq::new(
                    items@.len(),
                    |i: int|
                        if 0 <= i < items@.len() {
                            items@[i].view()
                        } else {
                            ItemV::Other
                        },
                ),
            ),
            RustItem::Other => ItemV::Other,
        }
    }
}

/// The values of a list of items.
pub open spec fn item_views(items: Seq<RustItem>) -> Seq<ItemV> {
    items.map_values(|i: RustItem| i@)
}

/// The value of a module is the list of its items' values.
pub proof fn lemma_module_view(item: RustItem)
    ensures
        item matches RustItem::Module(items) ==> item@ == ItemV::Module(item_views(items@)),
{
    match item {
        RustItem::Module(items) => {
            assert(item@->Module_0 =~= item_views(items@));
        },
        _ => {},
    }
}

/// What `syn::parse_file` makes of a source text: its items, or `None`
/// where the text is no Rust source file.
pub uninterp spec fn syntax_of(code: Seq<char>) -> Option<Seq<ItemV>>;

/// `syn::Item`, carried through as it is.
#[verifier::external_type_specification]
#[verifier::external_body]
pub struct ExSynItem(syn::Item);

/// `syn::ItemImpl`, carried through as it is.
#[verifier::external_type_specification]
#[verifier::external_body]
pub struct ExSynItemImpl(syn::ItemImpl);

/// `syn::Signature`, carried through as it is.
#[verifier::external_type_specification]
#[verifier::external_body]
pub struct ExSynSignature(syn::Signature);

/// `syn::Block`, carried through as it is.
#[verifier::external_type_specification]
#[verifier::external_body]
pub struct ExSynBlock(syn::Block);

/// `syn::Path`, carried through as it is.
#[verifier::external_type_specification]
#[verifier::external_body]
pub struct ExSynPath(syn::Path);

/// `syn::ImplItem`, carried through as it is.
#[verifier::external_type_specification]
#[verifier::external_body]
pub struct ExSynImplItem(syn::ImplItem);

/// Moves the parts of a function into the model: the identifier of the
/// signature, and the texts that `quote::ToTokens::to_token_stream` and
/// `to_string` give for the signature, the whole and the block.
#[verifier::external_body]
fn function_of(sig: &syn::Signature, whole: String, block: &syn::Block) -> (out: RustFunction) {
    RustFunction {
        name: sig.ident.to_string(),
        signature: sig.to_token_stream().to_string(),
        content: whole,
        body: block.to_token_stream().to_string(),
    }
}

/// The identifier of the last segment of a `syn::Path`.
#[verifier::external_body]
fn segment_of(path: &syn::Path) -> (out: Segment) {
    path.segments.last().map_or(Segment::Absent, |s| Segment::Name(s.ident.to_string()))
}

/// Tells the functions among the kinds of `syn::ImplItem` apart from the
/// rest and moves the parts of a function into the model.
#[verifier::external_body]
fn member_of(item: &ImplItem) -> (out: ImplMember) {
    match item {
        ImplItem::Fn(m) => ImplMember::Function(
            function_of(&m.sig, m.to_token_stream().to_string(), &m.block),
        ),
        _ => ImplMember::Other,
    }
}

/// Moves the parts of an `impl` block into the model: the last segment of
/// its type and of its trait, and every item it holds, in order.
#[verifier::external_body]
fn impl_of(node: &syn::ItemImpl) -> (out: RustImpl) {
    RustImpl {
        self_type: match &*node.self_ty {
            Type::Path(p) => segment_of(&p.path),
            _ => Segment::Absent,
        },
        trait_name: node.trait_.as_ref().map_or(Segment::Absent, |t| segment_of(&t.1)),
        members: node.items.iter().map(member_of).collect(),
    }
}

/// Tells the kinds of `syn::Item` apart and moves the fields of each into
/// the model.
#[verifier::external_body]
fn item_of(item: &Item) -> (out: RustItem) {
    let content = item.to_token_stream().to_string();
    match item {
        Item::Fn(f) => RustItem::Function(function_of(&f.sig, content, &f.block)),
        Item::Struct(s) => RustItem::Struct { name: s.ident.to_string(), content },
        Item::Enum(e) => RustItem::Enum { name: e.ident.to_string(), content },
        Item::Trait(t) => RustItem::Trait { name: t.ident.to_string(), content },
        Item::Impl(i) => RustItem::Impl(impl_of(i)),
        Item::Mod(m) => RustItem::Module(
            m.content.iter().flat_map(|c| c.1.iter()).map(item_of).collect(),
        ),
        _ => RustItem::Other,
    }
}

/// `syn::parse_file`: parses a Rust source file. The result depends on the
/// text alone. The parser sets no limit to the nesting of the source, so
/// that a text nested deeply enough exhausts the stack.
#[verifier::external_body]
pub(crate) fn parse_items(code: &str) -> (out: Option<Vec<RustItem>>)
    ensures
        match out {
            Some(items) => syntax_of(code@) == Some(item_views(items@)),
            None => syntax_of(code@) is None,
        },
{
    match syn::parse_file(code) {
        Ok(file) => Some(file.items.iter().map(item_of).collect()),
        Err(_) => None,
    }
}

/// The pattern of an identifier.
pub const IDENTIFIER_PATTERN: &'static str = "[a-zA-Z_][a-zA-Z0-9_]*";

/// Whether a word is too common to be worth an edge: a keyword of the
/// language or one of the names that are in every file.
pub open spec fn is_common_word(s: Seq<char>) -> bool {
    ||| s == "fn"@ || s == "let"@ || s == "mut"@ || s == "if"@ || s == "else"@
    ||| s == "match"@ || s == "return"@ || s == "pub"@ || s == "use"@ || s == "mod"@
    ||| s == "struct"@ || s == "enum"@ || s == "impl"@ || s == "for"@ || s == "while"@
    ||| s == "loop"@ || s == "break"@ || s == "continue"@ || s == "true"@ || s == "false"@
    ||| s == "String"@ || s == "Vec"@ || s == "Option"@ || s == "Result"@ || s == "Ok"@
    ||| s == "Err"@ || s == "Some"@ || s == "None"@ || s == "self"@ || s == "super"@
    ||| s == "crate"@ || s == "async"@ || s == "await"@ || s == "move"@ || s == "path"@
    ||| s == "str"@ || s == "i32"@ || s == "u32"@ || s == "i64"@ || s == "u64"@
    ||| s == "bool"@ || s == "usize"@ || s == "println"@ || s == "format"@ || s == "unwrap"@
}

/// Whether a word is too common to be worth an edge.
pub fn is_keyword(s: &str) -> (out: bool)
    ensures
        out == is_common_word(s@),
{
    str_eq(s, "fn") || str_eq(s, "let") || str_eq(s, "mut") || str_eq(s, "if") || str_eq(
        s,
        "else",
    ) || str_eq(s, "match") || str_eq(s, "return") || str_eq(s, "pub") || str_eq(s, "use")
        || str_eq(s, "mod") || str_eq(s, "struct") || str_eq(s, "enum") || str_eq(s, "impl")
        || str_eq(s, "for") || str_eq(s, "while") || str_eq(s, "loop") || str_eq(s, "break")
        || str_eq(s, "continue") || str_eq(s, "true") || str_eq(s, "false") || str_eq(
        s,
        "String",
    ) || str_eq(s, "Vec") || str_eq(s, "Option") || str_eq(s, "Result") || str_eq(s, "Ok")
        || str_eq(s, "Err") || str_eq(s, "Some") || str_eq(s, "None") || str_eq(s, "self")
        || str_eq(s, "super") || str_eq(s, "crate") || str_eq(s, "async") || str_eq(s, "await")
        || str_eq(s, "move") || str_eq(s, "path") || str_eq(s, "str") || str_eq(s, "i32")
        || str_eq(s, "u32") || str_eq(s, "i64") || str_eq(s, "u64") || str_eq(s, "bool")
        || str_eq(s, "usize") || str_eq(s, "println") || str_eq(s, "format") || str_eq(
        s,
        "unwrap",
    )
}

/// Whether an identifier is worth an edge: it is longer than three
/// characters and no common word.
pub open spec fn is_edge_word(word: Seq<char>) -> bool {
    word.len() > 3 && !is_common_word(word)
}

/// The words worth an edge among the matches from index `i` on, as they
/// come.
pub open spec fn edge_words_from(found: Seq<Seq<Option<Seq<char>>>>, i: int) -> Seq<Seq<char>>
    decreases found.len() - i,
{
    if i < 0 || i >= found.len() {
        seq![]
    } else {
        match group_text(found[i], 0) {
            Some(word) => if is_edge_word(word) {
                seq![word] + edge_words_from(found, i + 1)
            } else {
                edge_words_from(found, i + 1)
            },
            None => edge_words_from(found, i + 1),
        }
    }
}

/// The edges that a search for identifiers gives: the words worth an edge,
/// in the order of the dictionary, each once; none where the pattern was
/// refused.
pub open spec fn edges_of(found: Option<Seq<Seq<Option<Seq<char>>>>>) -> Seq<Seq<char>> {
    match found {
        Some(list) => sorted_set(edge_words_from(list, 0)),
        None => seq![],
    }
}

/// The edges of a body of code: the identifiers in it that are worth an
/// edge.
pub open spec fn potential_edges(body: Seq<char>) -> Seq<Seq<char>> {
    edges_of(regex_matches(IDENTIFIER_PATTERN@, body))
}

/// The edges among the identifiers found in a body.
pub fn edges_from(found: &Vec<Vec<Option<String>>>) -> (out: Vec<String>)
    ensures
        texts(out@) == sorted_set(edge_words_from(match_views(found@), 0)),
        strictly_sorted(texts(out@)),
{
    let mut words: Vec<String> = Vec::new();
    let ghost all = match_views(found@);
    let mut i: usize = 0;
    assert(texts(words@) + edge_words_from(all, 0) =~= edge_words_from(all, 0));
    while i < found.len()
        invariant
            i <= found.len(),
            all == match_views(found@),
            edge_words_from(all, 0) == texts(words@) + edge_words_from(all, i as int),
        decreases found.len() - i,
    {
        assert(all[i as int] == group_views(found@[i as int]@));
        match group(&found[i], 0) {
            Some(word) => {
                let n = chars_of(word.as_str()).len();
                if n > 3 && !is_keyword(word.as_str()) {
                    let ghost before = texts(words@);
                    words.push(word.clone());
                    assert(texts(words@) =~= before.push(word@));
                    assert(before + (seq![word@] + edge_words_from(all, i + 1)) =~= before.push(
                        word@,
                    ) + edge_words_from(all, i + 1));
                }
            },
            None => {},
        }
        i += 1;
    }
    assert(texts(words@) + Seq::<Seq<char>>::empty() =~= texts(words@));
    sorted_unique(words)
}

/// The edges of a body of code.
pub fn extract_potential_edges(body: &str) -> (out: Vec<String>)
    ensures
        texts(out@) == potential_edges(body@),
{
    match captures(IDENTIFIER_PATTERN, body) {
        Some(found) => edges_from(&found),
        None => {
            let out: Vec<String> = Vec::new();
            assert(texts(out@) =~= Seq::<Seq<char>>::empty());
            out
        },
    }
}

/// The id of an item of a kind: the kind, the scopes around the item with
/// `::` between them, and the name, with `:` between the three; without
/// scopes, the kind and the name.
pub open spec fn id_of(scope: Seq<Seq<char>>, name: Seq<char>, kind: Seq<char>) -> Seq<char> {
    if scope.len() == 0 {
        kind + ":"@ + name
    } else {
        kind + ":"@ + crate::agent::joined_texts(scope, "::"@) + ":"@ + name
    }
}

/// The node of a function at the top of a file or of a module.
pub open spec fn function_node(f: FunctionV, id: Seq<char>) -> ExtractedV {
    ExtractedV {
        id,
        kind: "fn"@,
        signature: f.signature,
        content: f.content,
        edges: potential_edges(f.body),
    }
}

/// The node of a struct, an enum or a trait.
pub open spec fn type_node(kind: Seq<char>, name: Seq<char>, content: Seq<char>, id: Seq<char>)
    -> ExtractedV {
    ExtractedV { id, kind, signature: kind + " "@ + name, content, edges: seq![] }
}

/// The name of the type of an `impl` block; a type that is no path is
/// `Unknown`.
pub open spec fn impl_type(self_type: SegmentV) -> Seq<char> {
    match self_type {
        SegmentV::Name(t) => t,
        SegmentV::Absent => "Unknown"@,
    }
}

/// The name of an `impl` block: its type, or its trait `for` its type.
pub open spec fn impl_name(self_type: SegmentV, trait_name: SegmentV) -> Seq<char> {
    match trait_name {
        SegmentV::Name(t) => t + " for "@ + impl_type(self_type),
        SegmentV::Absent => impl_type(self_type),
    }
}

/// The kind of an `impl` block.
pub open spec fn impl_kind(trait_name: SegmentV) -> Seq<char> {
    if trait_name is Name {
        "impl_trait"@
    } else {
        "impl"@
    }
}

/// The node of an `impl` block itself, with an edge to its type.
pub open spec fn impl_node(self_type: SegmentV, trait_name: SegmentV) -> ExtractedV {
    let name = impl_name(self_type, trait_name);
    ExtractedV {
        id: impl_kind(trait_name) + ":"@ + replaced(name, " "@, "_"@),
        kind: impl_kind(trait_name),
        signature: "impl "@ + name,
        content: "impl "@ + name + " { ... }"@,
        edges: seq!["struct:"@ + impl_type(self_type)],
    }
}

/// The node of a method: its id names the type, and its first edge goes
/// back to the type.
pub open spec fn method_node(owner: Seq<char>, m: FunctionV) -> ExtractedV {
    ExtractedV {
        id: "fn:"@ + owner + ":"@ + m.name,
        kind: "method"@,
        signature: m.signature,
        content: m.content,
        edges: seq!["struct:"@ + owner] + potential_edges(m.body),
    }
}

/// The nodes of the methods among the members from index `i` on, in order;
/// a member that is no function has none.
pub open spec fn method_nodes(owner: Seq<char>, members: Seq<ImplMemberV>, i: int) -> Seq<
    ExtractedV,
>
    decreases members.len() - i,
{
    if i < 0 || i >= members.len() {
        seq![]
    } else {
        match members[i] {
            ImplMemberV::Function(m) => seq![method_node(owner, m)] + method_nodes(
                owner,
                members,
                i + 1,
            ),
            ImplMemberV::Other => method_nodes(owner, members, i + 1),
        }
    }
}

/// The nodes of one item, given the scopes around it: one for a function, a
/// struct, an enum or a trait; for an `impl` block one for the block and
/// one for each of its methods; for a module those of its items; none for
/// anything else.
pub open spec fn item_nodes(item: ItemV, scope: Seq<Seq<char>>) -> Seq<ExtractedV>
    decreases item, 1int,
{
    match item {
        ItemV::Function(f) => seq![function_node(f, id_of(scope, f.name, "fn"@))],
        ItemV::Struct { name, content } => seq![
            type_node("struct"@, name, content, id_of(scope, name, "struct"@)),
        ],
        ItemV::Enum { name, content } => seq![
            type_node("enum"@, name, content, id_of(scope, name, "enum"@)),
        ],
        ItemV::Trait { name, content } => seq![
            type_node("trait"@, name, content, id_of(scope, name, "trait"@)),
        ],
        ItemV::Impl(block) => seq![impl_node(block.self_type, block.trait_name)] + method_nodes(
            impl_type(block.self_type),
            block.members,
            0,
        ),
        ItemV::Module(items) => items_nodes(items, scope, 0, item),
        ItemV::Other => seq![],
    }
}

/// The nodes of the items from index `i` on, in order. `parent` is the
/// module that holds them.
pub open spec fn items_nodes(items: Seq<ItemV>, scope: Seq<Seq<char>>, i: int, parent: ItemV)
    -> Seq<ExtractedV>
    decreases parent, 0int, items.len() - i,
{
    if i < 0 || i >= items.len() || !(parent matches ItemV::Module(held) && held == items) {
        seq![]
    } else {
        item_nodes(items[i], scope) + items_nodes(items, scope, i + 1, parent)
    }
}

/// The nodes of a file: those of its items, in order.
pub open spec fn file_nodes(items: Seq<ItemV>) -> Seq<ExtractedV> {
    items_nodes(items, seq![], 0, ItemV::Module(items))
}


/// The reader of a source file: the nodes gathered so far, and the scopes
/// around the item being read.
pub struct RustVisitor {
    pub nodes: Vec<ExtractedNode>,
    pub current_scope: Vec<String>,
}

fn concat3(a: &str, b: &str, c: &str) -> (out: String)
    ensures
        out@ == a@ + b@ + c@,
{
    let mut buf = chars_of(a);
    push_str(&mut buf, b);
    push_str(&mut buf, c);
    string_of(&buf)
}

fn type_node_of(kind: &str, name: &str, content: &str, id: String) -> (out: ExtractedNode)
    ensures
        out@ == type_node(kind@, name@, content@, id@),
{
    let edges: Vec<String> = Vec::new();
    assert(texts(edges@) =~= Seq::<Seq<char>>::empty());
    ExtractedNode {
        id,
        kind: copy_str(kind),
        signature: concat3(kind, " ", name),
        content: copy_str(content),
        edges,
    }
}

fn segment_name(segment: &Segment) -> (out: String)
    ensures
        out@ == impl_type(segment@),
{
    match segment {
        Segment::Name(n) => n.clone(),
        Segment::Absent => copy_str("Unknown"),
    }
}

impl RustVisitor {
    /// A reader that has read nothing.
    pub fn new() -> (out: Self)
        ensures
            out.nodes@.len() == 0,
            out.current_scope@.len() == 0,
    {
        RustVisitor { nodes: Vec::new(), current_scope: Vec::new() }
    }

    /// The id of an item of a kind under the scopes of this reader.
    pub fn generate_id(&self, name: &str, kind: &str) -> (out: String)
        ensures
            out@ == id_of(texts(self.current_scope@), name@, kind@),
    {
        if self.current_scope.len() == 0 {
            concat3(kind, ":", name)
        } else {
            let scope = crate::agent::join_texts(&self.current_scope, "::");
            let mut buf = chars_of(kind);
            push_str(&mut buf, ":");
            push_str(&mut buf, scope.as_str());
            push_str(&mut buf, ":");
            push_str(&mut buf, name);
            string_of(&buf)
        }
    }

    fn push_node(&mut self, node: ExtractedNode)
        ensures
            extracted_views(final(self).nodes@) == extracted_views(old(self).nodes@).push(node@),
            final(self).current_scope == old(self).current_scope,
    {
        self.nodes.push(node);
        assert(extracted_views(self.nodes@) =~= extracted_views(old(self).nodes@).push(node@));
    }

    fn visit_impl(&mut self, block: &RustImpl)
        ensures
            extracted_views(final(self).nodes@) == extracted_views(old(self).nodes@) + (seq![
                impl_node(block@.self_type, block@.trait_name),
            ] + method_nodes(impl_type(block@.self_type), block@.members, 0)),
            final(self).current_scope == old(self).current_scope,
    {
        let owner = segment_name(&block.self_type);
        let (name, kind) = match &block.trait_name {
            Segment::Name(t) => {
                let mut buf = chars_of(t.as_str());
                push_str(&mut buf, " for ");
                push_str(&mut buf, owner.as_str());
                (string_of(&buf), "impl_trait")
            },
            Segment::Absent => (owner.clone(), "impl"),
        };
        assert(name@ == impl_name(block@.self_type, block@.trait_name));
        assert(kind@ == impl_kind(block@.trait_name));
        let plain = string_of(&replace(&chars_of(name.as_str()), &chars_of(" "), &chars_of("_")));
        let mut to_owner: Vec<String> = Vec::new();
        let target = concat3("struct:", owner.as_str(), "");
        proof {
            reveal_strlit("");
            assert(target@ =~= "struct:"@ + owner@);
        }
        to_owner.push(target.clone());
        assert(texts(to_owner@) =~= seq![target@]);
        let ghost before = extracted_views(self.nodes@);
        let mut content = chars_of("impl ");
        push_str(&mut content, name.as_str());
        push_str(&mut content, " { ... }");
        self.push_node(
            ExtractedNode {
                id: concat3(kind, ":", plain.as_str()),
                kind: copy_str(kind),
                signature: concat3("impl ", name.as_str(), ""),
                content: string_of(&content),
                edges: to_owner,
            },
        );
        assert(extracted_views(self.nodes@) =~= before + seq![
            impl_node(block@.self_type, block@.trait_name),
        ]) by {
            assert("impl "@ + name@ + ""@ =~= "impl "@ + name@);
        }
        let ghost all = block@.members;
        let ghost start = extracted_views(self.nodes@);
        let mut i: usize = 0;
        while i < block.members.len()
            invariant
                i <= block.members.len(),
                all == block@.members,
                target@ == "struct:"@ + owner@,
                self.current_scope == old(self).current_scope,
                start + method_nodes(owner@, all, 0) == extracted_views(self.nodes@)
                    + method_nodes(owner@, all, i as int),
            decreases block.members.len() - i,
        {
            assert(all[i as int] == block.members@[i as int]@);
            match &block.members[i] {
                ImplMember::Function(m) => {
                    let mut edges: Vec<String> = Vec::new();
                    edges.push(target.clone());
                    let mut found = extract_potential_edges(m.body.as_str());
                    let ghost tail = texts(found@);
                    edges.append(&mut found);
                    assert(texts(edges@) =~= seq![target@] + tail);
                    let mut id = chars_of("fn:");
                    push_str(&mut id, owner.as_str());
                    push_str(&mut id, ":");
                    push_str(&mut id, m.name.as_str());
                    let ghost so_far = extracted_views(self.nodes@);
                    self.push_node(
                        ExtractedNode {
                            id: string_of(&id),
                            kind: copy_str("method"),
                            signature: m.signature.clone(),
                            content: m.content.clone(),
                            edges,
                        },
                    );
                    assert(so_far + (seq![method_node(owner@, m@)] + method_nodes(
                        owner@,
                        all,
                        i + 1,
                    )) =~= so_far.push(method_node(owner@, m@)) + method_nodes(
                        owner@,
                        all,
                        i + 1,
                    ));
                },
                ImplMember::Other => {},
            }
            i += 1;
        }
        assert(extracted_views(self.nodes@) + Seq::<ExtractedV>::empty() =~= extracted_views(
            self.nodes@,
        ));
        assert(before + seq![impl_node(block@.self_type, block@.trait_name)] + method_nodes(
            owner@,
            all,
            0,
        ) =~= before + (seq![impl_node(block@.self_type, block@.trait_name)] + method_nodes(
            owner@,
            all,
            0,
        )));
    }

    /// Reads one item: its nodes are added to those gathered so far.
    pub fn visit_item(&mut self, item: &RustItem)
        ensures
            extracted_views(final(self).nodes@) == extracted_views(old(self).nodes@) + item_nodes(
                item@,
                texts(old(self).current_scope@),
            ),
            final(self).current_scope == old(self).current_scope,
        decreases item,
    {
        let ghost before = extracted_views(self.nodes@);
        let ghost scope = texts(self.current_scope@);
        match item {
            RustItem::Function(f) => {
                let node = ExtractedNode {
                    id: self.generate_id(f.name.as_str(), "fn"),
                    kind: copy_str("fn"),
                    signature: f.signature.clone(),
                    content: f.content.clone(),
                    edges: extract_potential_edges(f.body.as_str()),
                };
                self.push_node(node);
                assert(before.push(node@) =~= before + item_nodes(item@, scope));
            },
            RustItem::Struct { name, content } => {
                let id = self.generate_id(name.as_str(), "struct");
                let node = type_node_of("struct", name.as_str(), content.as_str(), id);
                self.push_node(node);
                assert(before.push(node@) =~= before + item_nodes(item@, scope));
            },
            RustItem::Enum { name, content } => {
                let id = self.generate_id(name.as_str(), "enum");
                let node = type_node_of("enum", name.as_str(), content.as_str(), id);
                self.push_node(node);
                assert(before.push(node@) =~= before + item_nodes(item@, scope));
            },
            RustItem::Trait { name, content } => {
                let id = self.generate_id(name.as_str(), "trait");
                let node = type_node_of("trait", name.as_str(), content.as_str(), id);
                self.push_node(node);
                assert(before.push(node@) =~= before + item_nodes(item@, scope));
            },
            RustItem::Impl(block) => {
                self.visit_impl(block);
            },
            RustItem::Module(items) => {
                proof {
                    lemma_module_view(*item);
                }
                let ghost all = item_views(items@);
                let mut i: usize = 0;
                while i < items.len()
                    invariant
                        i <= items.len(),
                        *item == RustItem::Module(*items),
                        item@ == ItemV::Module(all),
                        all == item_views(items@),
                        self.current_scope == old(self).current_scope,
                        scope == texts(self.current_scope@),
                        before + items_nodes(all, scope, 0, item@) == extracted_views(self.nodes@)
                            + items_nodes(all, scope, i as int, item@),
                    decreases items.len() - i,
                {
                    assert(decreases_to!(item => items@[i as int])) by {
                        assert(item->Module_0 == *items);
                        assert(decreases_to!(*items => items@[i as int]));
                    }
                    assert(all[i as int] == items@[i as int]@);
                    let ghost so_far = extracted_views(self.nodes@);
                    self.visit_item(&items[i]);
                    assert(so_far + (item_nodes(all[i as int], scope) + items_nodes(
                        all,
                        scope,
                        i + 1,
                        item@,
                    )) =~= (so_far + item_nodes(all[i as int], scope)) + items_nodes(
                        all,
                        scope,
                        i + 1,
                        item@,
                    ));
                    i += 1;
                }
                assert(extracted_views(self.nodes@) + Seq::<ExtractedV>::empty()
                    =~= extracted_views(self.nodes@));
            },
            RustItem::Other => {
                assert(before + Seq::<ExtractedV>::empty() =~= before);
            },
        }
    }
}

/// The nodes of the items of a file, in order.
pub fn nodes_of_items(items: Vec<RustItem>) -> (out: Vec<ExtractedNode>)
    ensures
        extracted_views(out@) == file_nodes(item_views(items@)),
{
    let file = RustItem::Module(items);
    proof {
        lemma_module_view(file);
    }
    let mut visitor = RustVisitor::new();
    assert(extracted_views(visitor.nodes@) =~= Seq::<ExtractedV>::empty());
    assert(texts(visitor.current_scope@) =~= Seq::<Seq<char>>::empty());
    visitor.visit_item(&file);
    assert(Seq::<ExtractedV>::empty() + item_nodes(file@, seq![]) =~= item_nodes(file@, seq![]));
    visitor.nodes
}

/// Reads a Rust source file into nodes: `None` where the text does not
/// parse.
pub fn parse_rust(code: &str) -> (out: Option<Vec<ExtractedNode>>)
    ensures
        match out {
            Some(nodes) => syntax_of(code@) matches Some(items) && extracted_views(nodes@)
                == file_nodes(items),
            None => syntax_of(code@) is None,
        },
{
    match parse_items(code) {
        Some(items) => Some(nodes_of_items(items)),
        None => None,
    }
}

} // verus!
