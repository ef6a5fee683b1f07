//! Self-critique: the request that asks for lessons, and the reading of the
//! lessons from the answer.

use crate::pattern::{captures, group, group_text, group_views, match_views, regex_matches};
use crate::text::{chars_of, string_of, texts, trim, trimmed};
use vstd::prelude::*;

verus! {

pub const CRITIQUE_PROMPT: &'static str =
    "You are a meta-cognitive agent reviewing your recent actions.\nAnalyze the conversation above and extract behavioral lessons.\n\nFor each lesson, output a line in this format:\nHEURISTIC: <lesson>\n\nExamples:\nHEURISTIC: When editing Rust, always run `cargo check` before committing.\nHEURISTIC: User prefers concise diffs over full file rewrites.\nHEURISTIC: This codebase uses `anyhow` for error handling, not `Result<T, E>`.\n\nFocus on:\n1. What worked well and should be repeated.\n2. What failed and should be avoided.\n3. User preferences inferred from feedback.\n4. Codebase patterns worth remembering.\n\nOutput ONLY the HEURISTIC lines, nothing else.";

/// The pattern of a lesson line: `HEURISTIC:` at the start of a line, white
/// space, and the lesson up to the end of the line.
pub const HEURISTIC_PATTERN: &'static str = "(?m)^HEURISTIC:\\s*(.+)$";

pub struct Reflexion;

/// The lessons of the matches from index `i` on: the first group of each
/// match that has one, trimmed.
pub open spec fn lessons_from(found: Seq<Seq<Option<Seq<char>>>>, i: int) -> Seq<Seq<char>>
    decreases found.len() - i,
{
    if i < 0 || i >= found.len() {
        seq![]
    } else {
        match group_text(found[i], 1) {
            Some(t) => seq![trimmed(t)] + lessons_from(found, i + 1),
            None => lessons_from(found, i + 1),
        }
    }
}

/// The lessons that a search result holds; none where the pattern was
/// refused.
pub open spec fn lessons_of(found: Option<Seq<Seq<Option<Seq<char>>>>>) -> Seq<Seq<char>> {
    match found {
        Some(list) => lessons_from(list, 0),
        None => seq![],
    }
}

impl Reflexion {
    /// The request that asks the reasoner to review its own work.
    pub fn critique_prompt() -> (out: &'static str)
        ensures
            out@ == CRITIQUE_PROMPT@,
    {
        CRITIQUE_PROMPT
    }

    /// The lessons among the matches of the lesson pattern.
    pub fn heuristics_from(found: &Vec<Vec<Option<String>>>) -> (out: Vec<String>)
        ensures
            texts(out@) == lessons_from(match_views(found@), 0),
    {
        let mut out: Vec<String> = Vec::new();
        let mut i: usize = 0;
        let ghost all = match_views(found@);
        assert(texts(out@) + lessons_from(all, 0) =~= lessons_from(all, 0));
        while i < found.len()
            invariant
                i <= found.len(),
                all == match_views(found@),
                lessons_from(all, 0) == texts(out@) + lessons_from(all, i as int),
            decreases found.len() - i,
        {
            assert(all[i as int] == group_views(found@[i as int]@));
            match group(&found[i], 1) {
                Some(t) => {
                    let s = string_of(&trim(&chars_of(t.as_str())));
                    let ghost before = texts(out@);
                    out.push(s);
                    assert(texts(out@) =~= before.push(s@));
                    assert(before + (seq![s@] + lessons_from(all, i + 1)) =~= before.push(s@)
                        + lessons_from(all, i + 1));
                },
                None => {},
            }
            i += 1;
        }
        assert(texts(out@) + Seq::<Seq<char>>::empty() =~= texts(out@));
        out
    }

    /// The lessons that a response states, in order.
    pub fn parse_heuristics(response: &str) -> (out: Vec<String>)
        ensures
            texts(out@) == lessons_of(regex_matches(HEURISTIC_PATTERN@, response@)),
    {
        match captures(HEURISTIC_PATTERN, response) {
            Some(found) => Reflexion::heuristics_from(&found),
            None => {
                let out: Vec<String> = Vec::new();
                assert(texts(out@) =~= Seq::<Seq<char>>::empty());
                out
            },
        }
    }
}

/// The engine that will judge plans and actions before they run.
pub struct ReflexionEngine;

impl ReflexionEngine {
    pub fn new() -> (e: Self) {
        ReflexionEngine
    }
}

impl Default for ReflexionEngine {
    fn default() -> (e: Self) {
        ReflexionEngine::new()
    }
}

} // verus!
