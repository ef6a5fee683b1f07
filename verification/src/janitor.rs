//! The janitor distils a conversation into semantic triples.

use crate::text::{chars_of, contains, contains_text, has_prefix, lines, lines_of, rows,
    slice_of, starts_with, string_of, texts, trim, trimmed};
use vstd::prelude::*;

verus! {

pub const EXTRACTION_PROMPT: &'static str =
    "You are a Knowledge Graph Extractor.\nAnalyze the following conversation and extract key technical facts and user preferences.\nOutput STRICTLY a list of \"Semantic Triples\" in this format:\n- (Subject) --[Relation]--> (Object)\n\nRules:\n1. De-duplicate entities (e.g., use \"Sly\" instead of \"the agent\").\n2. Capture technical constraints (e.g., `(Project) --uses--> (Tokio)`).\n3. Capture user preferences (e.g., `(User) --dislikes--> (Python Scripts)`).\n4. No introduction or prose. List only.";

pub struct Janitor;

/// Whether a trimmed line writes a triple: it begins with `- (` and holds
/// ` --[`.
pub open spec fn is_triple(line: Seq<char>) -> bool {
    has_prefix(line, "- ("@) && contains_text(line, " --["@)
}

/// The triples among the lines from index `i` on: each such line trimmed and
/// without its leading `- `.
pub open spec fn triples_from(lines: Seq<Seq<char>>, i: int) -> Seq<Seq<char>>
    decreases lines.len() - i,
{
    if i < 0 || i >= lines.len() {
        seq![]
    } else {
        let t = trimmed(lines[i]);
        if is_triple(t) {
            seq![t.subrange(2, t.len() as int)] + triples_from(lines, i + 1)
        } else {
            triples_from(lines, i + 1)
        }
    }
}

impl Janitor {
    /// The request that asks the reasoner for triples.
    pub fn extraction_prompt() -> (out: &'static str)
        ensures
            out@ == EXTRACTION_PROMPT@,
    {
        EXTRACTION_PROMPT
    }

    /// The triples that a response lists, in order.
    pub fn parse_triples(content: &str) -> (out: Vec<String>)
        ensures
            texts(out@) == triples_from(lines_of(content@), 0),
    {
        let all = lines(&chars_of(content));
        let marker = chars_of("- (");
        let arrow = chars_of(" --[");
        let mut out: Vec<String> = Vec::new();
        let mut i: usize = 0;
        proof {
            reveal_strlit("- (");
            assert(texts(out@) + triples_from(rows(all@), 0) =~= triples_from(rows(all@), 0));
        }
        while i < all.len()
            invariant
                i <= all.len(),
                marker@ == "- ("@,
                marker@.len() == 3,
                arrow@ == " --["@,
                triples_from(rows(all@), 0) == texts(out@) + triples_from(rows(all@), i as int),
            decreases all.len() - i,
        {
            let t = trim(&all[i]);
            assert(rows(all@)[i as int] == all@[i as int]@);
            if starts_with(&t, &marker) && contains(&t, &arrow) {
                let s = string_of(&slice_of(&t, 2, t.len()));
                let ghost before = texts(out@);
                out.push(s);
                assert(texts(out@) =~= before.push(s@));
                assert(before + (seq![s@] + triples_from(rows(all@), i + 1)) =~= before.push(s@)
                    + triples_from(rows(all@), i + 1));
            }
            i += 1;
        }
        assert(texts(out@) + Seq::<Seq<char>>::empty() =~= texts(out@));
        out
    }
}

} // verus!
