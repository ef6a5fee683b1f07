//! Questions about the codebase: what kind of question is asked, and the
//! request that puts it to the reasoner.

use crate::pattern::{captures, group, group_text, group_views, match_views, regex_matches};
use crate::text::{chars_of, contains, contains_text, copy_str, count_of, find, find_from,
    has_prefix, lemma_find_from, lines, lines_of, lowercase, parse_count, push_str, rows,
    same_text, slice_of, starts_with, string_of, texts, to_lowercase, trim, trimmed};
use vstd::prelude::*;

verus! {

/// What a question is after.
#[derive(Debug, Clone, Copy, PartialEq, Eq)]
pub enum QuestionType {
    /// Where something is defined.
    Location,
    /// How something works.
    Explanation,
    /// How something is used.
    Usage,
    /// What depends on what.
    Relationship,
    /// Why something changed.
    History,
    /// How two things differ.
    Comparison,
}

/// A place in the codebase that an answer rests on.
#[derive(Debug, Clone, PartialEq)]
pub struct SourceLocation {
    pub file: String,
    pub line_start: usize,
    pub line_end: usize,
    pub snippet: String,
    /// How much the place bears on the question, in hundredths.
    pub relevance_percent: u8,
}

/// The mathematical value of a [`SourceLocation`].
pub struct SourceV {
    pub file: Seq<char>,
    pub line_start: usize,
    pub line_end: usize,
    pub snippet: Seq<char>,
    pub relevance_percent: u8,
}

impl View for SourceLocation {
    type V = SourceV;

    open spec fn view(&self) -> SourceV {
        SourceV {
            file: self.file@,
            line_start: self.line_start,
            line_end: self.line_end,
            snippet: self.snippet@,
            relevance_percent: self.relevance_percent,
        }
    }
}

/// The values of a list of sources.
pub open spec fn source_views(list: Seq<SourceLocation>) -> Seq<SourceV> {
    list.map_values(|s: SourceLocation| s@)
}

/// The pattern of a concept: a capitalised name between backticks.
pub const CONCEPT_PATTERN: &'static str = "`([A-Z][a-zA-Z0-9_]+)`";

/// The line number that a text writes, or `fallback` where it writes none
/// that fits.
pub open spec fn line_number(text: Seq<char>, fallback: usize) -> usize {
    match count_of(text) {
        Some(n) => if n <= usize::MAX {
            n as usize
        } else {
            fallback
        },
        None => fallback,
    }
}

/// Whether a text writes a line number that fits.
pub open spec fn is_line_number(text: Seq<char>) -> bool {
    count_of(text) matches Some(n) && n <= usize::MAX
}

/// The range of lines that the text behind `LINES:` gives, where `current`
/// is the range so far. `a-b` gives the two numbers, each read leniently:
/// a first that is no number is 0, a second that is none is the first. A
/// text without a dash that is a number gives that line alone. Anything
/// else leaves the range as it is.
pub open spec fn line_range(current: (usize, usize), text: Seq<char>) -> (usize, usize) {
    match find_from(text, "-"@, 0) {
        Some(dash) => if find_from(text, "-"@, dash + 1) is None {
            let first = line_number(trimmed(text.subrange(0, dash)), 0);
            (first, line_number(trimmed(text.subrange(dash + 1, text.len() as int)), first))
        } else {
            current
        },
        None => if is_line_number(text) {
            (line_number(text, 0), line_number(text, 0))
        } else {
            current
        },
    }
}

/// What has been gathered from the lines of a response read so far: the
/// sources that are complete, and the file, range and snippet of the one
/// being read.
pub struct SourceNotes {
    pub sources: Seq<SourceV>,
    pub file: Seq<char>,
    pub range: (usize, usize),
    pub snippet: Seq<char>,
}

/// The sources once the one being read is closed: it counts if it has a
/// file.
pub open spec fn closed(notes: SourceNotes) -> Seq<SourceV> {
    if notes.file.len() > 0 {
        notes.sources.push(
            SourceV {
                file: notes.file,
                line_start: notes.range.0,
                line_end: notes.range.1,
                snippet: notes.snippet,
                relevance_percent: 100,
            },
        )
    } else {
        notes.sources
    }
}

/// The notes after one more line. A `FILE:` line closes the source being
/// read and opens the next; a `LINES:` line sets its range; a `SNIPPET:`
/// line sets its snippet; any other line changes nothing.
pub open spec fn source_line(notes: SourceNotes, line: Seq<char>) -> SourceNotes {
    let t = trimmed(line);
    if has_prefix(t, "FILE:"@) {
        SourceNotes {
            sources: closed(notes),
            file: trimmed(t.subrange(5, t.len() as int)),
            range: (0, 0),
            snippet: Seq::empty(),
        }
    } else if has_prefix(t, "LINES:"@) {
        SourceNotes { range: line_range(notes.range, trimmed(t.subrange(6, t.len() as int))), ..notes }
    } else if has_prefix(t, "SNIPPET:"@) {
        SourceNotes { snippet: trimmed(t.subrange(8, t.len() as int)), ..notes }
    } else {
        notes
    }
}

/// The notes after the lines from index `i` on.
pub open spec fn source_lines(notes: SourceNotes, lines: Seq<Seq<char>>, i: int) -> SourceNotes
    decreases lines.len() - i,
{
    if i < 0 || i >= lines.len() {
        notes
    } else {
        source_lines(source_line(notes, lines[i]), lines, i + 1)
    }
}

/// The sources that a response names, in order.
pub open spec fn sources_of(response: Seq<char>) -> Seq<SourceV> {
    closed(
        source_lines(
            SourceNotes {
                sources: Seq::empty(),
                file: Seq::empty(),
                range: (0, 0),
                snippet: Seq::empty(),
            },
            lines_of(response),
            0,
        ),
    )
}

/// The concepts of the matches from index `i` on, added to those in `seen`:
/// the first group of each match, each concept once, in the order in which
/// they first occur.
pub open spec fn concepts_from(
    found: Seq<Seq<Option<Seq<char>>>>,
    i: int,
    seen: Seq<Seq<char>>,
) -> Seq<Seq<char>>
    decreases found.len() - i,
{
    if i < 0 || i >= found.len() {
        seen
    } else {
        match group_text(found[i], 1) {
            Some(c) => if seen.contains(c) {
                concepts_from(found, i + 1, seen)
            } else {
                concepts_from(found, i + 1, seen.push(c))
            },
            None => concepts_from(found, i + 1, seen),
        }
    }
}

/// The concepts that a search result holds; none where the pattern was
/// refused.
pub open spec fn concepts_of(found: Option<Seq<Seq<Option<Seq<char>>>>>) -> Seq<Seq<char>> {
    match found {
        Some(list) => concepts_from(list, 0, seq![]),
        None => seq![],
    }
}

fn read_line_number(text: &Vec<char>, fallback: usize) -> (out: usize)
    ensures
        out == line_number(text@, fallback),
{
    match parse_count(text) {
        Some(n) => if n <= usize::MAX as u64 {
            n as usize
        } else {
            fallback
        },
        None => fallback,
    }
}

fn read_line_range(current: (usize, usize), text: &Vec<char>) -> (out: (usize, usize))
    ensures
        out == line_range(current, text@),
{
    let dash = chars_of("-");
    proof {
        reveal_strlit("-");
        lemma_find_from(text@, "-"@, 0);
    }
    match find(text, &dash, 0) {
        Some(at) => {
            proof {
                assert("-"@.len() == 1);
                assert(crate::text::occurs_at(text@, "-"@, at as int));
                assert(at + 1 <= text.len());
            }
            if find(text, &dash, at + 1).is_none() {
                let first = read_line_number(&trim(&slice_of(text, 0, at)), 0);
                (first, read_line_number(&trim(&slice_of(text, at + 1, text.len())), first))
            } else {
                current
            }
        },
        None => match parse_count(text) {
            Some(n) => if n <= usize::MAX as u64 {
                (n as usize, n as usize)
            } else {
                current
            },
            None => current,
        },
    }
}

fn holds(list: &Vec<String>, text: &Vec<char>) -> (out: bool)
    ensures
        out == texts(list@).contains(text@),
{
    let mut i: usize = 0;
    while i < list.len()
        invariant
            i <= list.len(),
            forall|k: int| 0 <= k < i ==> texts(list@)[k] != text@,
        decreases list.len() - i,
    {
        assert(texts(list@)[i as int] == list@[i as int]@);
        if same_text(&chars_of(list[i].as_str()), text) {
            return true;
        }
        i += 1;
    }
    false
}

/// The question-and-answer engine of one workspace.
pub struct CodebaseQA {
    workspace: String,
}

/// The kind of a question, by the words in its lower-case form. The kinds
/// are tried in a fixed order; a question with none of the words asks for
/// an explanation.
pub open spec fn question_kind(q: Seq<char>) -> QuestionType {
    if contains_text(q, "where"@) || contains_text(q, "defined"@) || contains_text(q, "located"@)
        || contains_text(q, "find"@) {
        QuestionType::Location
    } else if contains_text(q, "how does"@) || contains_text(q, "explain"@) || contains_text(
        q,
        "what does"@,
    ) {
        QuestionType::Explanation
    } else if contains_text(q, "how to"@) || contains_text(q, "how do i"@) || contains_text(
        q,
        "example"@,
    ) {
        QuestionType::Usage
    } else if contains_text(q, "depends"@) || contains_text(q, "uses"@) || contains_text(
        q,
        "calls"@,
    ) || contains_text(q, "related"@) {
        QuestionType::Relationship
    } else if contains_text(q, "why"@) || contains_text(q, "changed"@) || contains_text(
        q,
        "history"@,
    ) {
        QuestionType::History
    } else if contains_text(q, "difference"@) || contains_text(q, "compare"@) || contains_text(
        q,
        "vs"@,
    ) {
        QuestionType::Comparison
    } else {
        QuestionType::Explanation
    }
}

/// What the reasoner is told to do for a kind of question.
pub open spec fn instruction_for(kind: QuestionType) -> Seq<char> {
    match kind {
        QuestionType::Location => "Find the exact file(s) and line number(s) where the requested item is defined.\n                 Return the file path, line range, and a brief snippet."@,
        QuestionType::Explanation => "Explain how the requested component works. Include:\n                 1. Its purpose and responsibility\n                 2. Key data structures or types\n                 3. Important functions or methods\n                 4. How it integrates with other parts of the system"@,
        QuestionType::Usage => "Provide a practical example of how to use the requested component.\n                 Include:\n                 1. Required imports or setup\n                 2. A concrete code example\n                 3. Common parameters or configuration\n                 4. Typical use cases"@,
        QuestionType::Relationship => "Analyze the relationships and dependencies:\n                 1. What components depend on this?\n                 2. What does this depend on?\n                 3. Key interfaces or contracts\n                 4. Impact of changes"@,
        QuestionType::History => "Review the history and evolution:\n                 1. When was this introduced?\n                 2. What significant changes were made?\n                 3. Why were changes made?\n                 4. Who are the main contributors?"@,
        QuestionType::Comparison => "Compare the requested items:\n                 1. Key similarities\n                 2. Important differences\n                 3. When to use each\n                 4. Trade-offs"@,
    }
}

/// The request for a question of a kind, with the context it is asked in.
pub open spec fn qa_prompt(kind: QuestionType, question: Seq<char>, context: Seq<char>) -> Seq<
    char,
> {
    "You are a codebase expert assistant. Answer questions about the code with precision.\n\n## Instructions\n"@ + instruction_for(kind) + "\n\n## Codebase Context\n"@ + context + "\n\n## Question\n"@ + question + "\n\n## Response Format\nProvide a clear, concise answer. For locations, use format:\nFILE: path/to/file.rs\nLINES: start-end\nSNIPPET: relevant code\n\nFor explanations, use structured paragraphs with code examples where helpful.\n"@
}

/// What is known of the files of a workspace.
#[derive(Debug, Clone, Copy, PartialEq, Eq)]
pub struct WorkspaceFiles {
    pub cargo_toml: bool,
    pub package_json: bool,
    pub requirements_txt: bool,
    pub main_rs: bool,
    pub index_ts: bool,
}

/// The answer that needs no reasoner: the language of the project where
/// the question asks for it and a manifest says it; the entry point where
/// the question asks for it and the file is there.
pub open spec fn quick_answer_text(q: Seq<char>, files: WorkspaceFiles) -> Option<Seq<char>> {
    if contains_text(q, "what language"@) && files.cargo_toml {
        Some("This is a **Rust** project (Cargo.toml found)."@)
    } else if contains_text(q, "what language"@) && files.package_json {
        Some("This is a **JavaScript/TypeScript** project (package.json found)."@)
    } else if contains_text(q, "what language"@) && files.requirements_txt {
        Some("This is a **Python** project (requirements.txt found)."@)
    } else if (contains_text(q, "entry point"@) || contains_text(q, "main function"@))
        && files.main_rs {
        Some("The main entry point is `src/main.rs`."@)
    } else if (contains_text(q, "entry point"@) || contains_text(q, "main function"@))
        && files.index_ts {
        Some("The main entry point is `src/index.ts`."@)
    } else {
        None
    }
}

fn has(q: &Vec<char>, word: &str) -> (out: bool)
    ensures
        out == contains_text(q@, word@),
{
    contains(q, &chars_of(word))
}

fn instruction(kind: QuestionType) -> (out: &'static str)
    ensures
        out@ == instruction_for(kind),
{
    match kind {
        QuestionType::Location => "Find the exact file(s) and line number(s) where the requested item is defined.\n                 Return the file path, line range, and a brief snippet.",
        QuestionType::Explanation => "Explain how the requested component works. Include:\n                 1. Its purpose and responsibility\n                 2. Key data structures or types\n                 3. Important functions or methods\n                 4. How it integrates with other parts of the system",
        QuestionType::Usage => "Provide a practical example of how to use the requested component.\n                 Include:\n                 1. Required imports or setup\n                 2. A concrete code example\n                 3. Common parameters or configuration\n                 4. Typical use cases",
        QuestionType::Relationship => "Analyze the relationships and dependencies:\n                 1. What components depend on this?\n                 2. What does this depend on?\n                 3. Key interfaces or contracts\n                 4. Impact of changes",
        QuestionType::History => "Review the history and evolution:\n                 1. When was this introduced?\n                 2. What significant changes were made?\n                 3. Why were changes made?\n                 4. Who are the main contributors?",
        QuestionType::Comparison => "Compare the requested items:\n                 1. Key similarities\n                 2. Important differences\n                 3. When to use each\n                 4. Trade-offs",
    }
}

impl CodebaseQA {
    /// The workspace that the engine answers for.
    pub closed spec fn root(&self) -> Seq<char> {
        self.workspace@
    }

    pub fn new(workspace: &str) -> (out: Self)
        ensures
            out.root() == workspace@,
    {
        CodebaseQA { workspace: copy_str(workspace) }
    }

    /// The workspace that the engine answers for.
    pub fn workspace(&self) -> (out: &str)
        ensures
            out@ == self.root(),
    {
        self.workspace.as_str()
    }

    /// The kind of a question.
    pub fn classify_question(&self, question: &str) -> (out: QuestionType)
        ensures
            out == question_kind(lowercase(question@)),
    {
        let q = chars_of(to_lowercase(question).as_str());
        if has(&q, "where") || has(&q, "defined") || has(&q, "located") || has(&q, "find") {
            QuestionType::Location
        } else if has(&q, "how does") || has(&q, "explain") || has(&q, "what does") {
            QuestionType::Explanation
        } else if has(&q, "how to") || has(&q, "how do i") || has(&q, "example") {
            QuestionType::Usage
        } else if has(&q, "depends") || has(&q, "uses") || has(&q, "calls") || has(
            &q,
            "related",
        ) {
            QuestionType::Relationship
        } else if has(&q, "why") || has(&q, "changed") || has(&q, "history") {
            QuestionType::History
        } else if has(&q, "difference") || has(&q, "compare") || has(&q, "vs") {
            QuestionType::Comparison
        } else {
            QuestionType::Explanation
        }
    }

    /// The request that puts a question to the reasoner.
    pub fn build_qa_prompt(&self, question: &str, context: &str) -> (out: String)
        ensures
            out@ == qa_prompt(question_kind(lowercase(question@)), question@, context@),
    {
        let kind = self.classify_question(question);
        let mut buf = chars_of("You are a codebase expert assistant. Answer questions about the code with precision.\n\n## Instructions\n");
        push_str(&mut buf, instruction(kind));
        push_str(&mut buf, "\n\n## Codebase Context\n");
        push_str(&mut buf, context);
        push_str(&mut buf, "\n\n## Question\n");
        push_str(&mut buf, question);
        push_str(&mut buf, "\n\n## Response Format\nProvide a clear, concise answer. For locations, use format:\nFILE: path/to/file.rs\nLINES: start-end\nSNIPPET: relevant code\n\nFor explanations, use structured paragraphs with code examples where helpful.\n");
        string_of(&buf)
    }

    /// The sources that a response of the reasoner names, in order. Each
    /// bears fully on the question.
    pub fn parse_sources(&self, response: &str) -> (out: Vec<SourceLocation>)
        ensures
            source_views(out@) == sources_of(response@),
    {
        let all = lines(&chars_of(response));
        let mut sources: Vec<SourceLocation> = Vec::new();
        let mut file: Vec<char> = Vec::new();
        let mut range: (usize, usize) = (0, 0);
        let mut snippet: Vec<char> = Vec::new();
        assert(source_views(sources@) =~= Seq::<SourceV>::empty());
        proof {
            reveal_strlit("FILE:");
            reveal_strlit("LINES:");
            reveal_strlit("SNIPPET:");
        }
        let mut i: usize = 0;
        while i < all.len()
            invariant
                i <= all.len(),
                "FILE:"@.len() == 5,
                "LINES:"@.len() == 6,
                "SNIPPET:"@.len() == 8,
                source_lines(
                    SourceNotes {
                        sources: Seq::empty(),
                        file: Seq::empty(),
                        range: (0, 0),
                        snippet: Seq::empty(),
                    },
                    rows(all@),
                    0,
                ) == source_lines(
                    SourceNotes {
                        sources: source_views(sources@),
                        file: file@,
                        range,
                        snippet: snippet@,
                    },
                    rows(all@),
                    i as int,
                ),
            decreases all.len() - i,
        {
            let t = trim(&all[i]);
            assert(rows(all@)[i as int] == all@[i as int]@);
            if starts_with(&t, &chars_of("FILE:")) {
                if file.len() > 0 {
                    let ghost before = source_views(sources@);
                    let done = SourceLocation {
                        file: string_of(&file),
                        line_start: range.0,
                        line_end: range.1,
                        snippet: string_of(&snippet),
                        relevance_percent: 100,
                    };
                    sources.push(done);
                    assert(source_views(sources@) =~= before.push(done@));
                }
                file = trim(&slice_of(&t, 5, t.len()));
                range = (0, 0);
                snippet = Vec::new();
            } else if starts_with(&t, &chars_of("LINES:")) {
                range = read_line_range(range, &trim(&slice_of(&t, 6, t.len())));
            } else if starts_with(&t, &chars_of("SNIPPET:")) {
                snippet = trim(&slice_of(&t, 8, t.len()));
            }
            i += 1;
        }
        if file.len() > 0 {
            let ghost before = source_views(sources@);
            let done = SourceLocation {
                file: string_of(&file),
                line_start: range.0,
                line_end: range.1,
                snippet: string_of(&snippet),
                relevance_percent: 100,
            };
            sources.push(done);
            assert(source_views(sources@) =~= before.push(done@));
        }
        sources
    }

    /// The concepts among the matches of the concept pattern.
    pub fn concepts_among(found: &Vec<Vec<Option<String>>>) -> (out: Vec<String>)
        ensures
            texts(out@) == concepts_from(match_views(found@), 0, seq![]),
    {
        let mut out: Vec<String> = Vec::new();
        let ghost all = match_views(found@);
        let mut i: usize = 0;
        assert(texts(out@) =~= Seq::<Seq<char>>::empty());
        while i < found.len()
            invariant
                i <= found.len(),
                all == match_views(found@),
                concepts_from(all, 0, seq![]) == concepts_from(all, i as int, texts(out@)),
            decreases found.len() - i,
        {
            assert(all[i as int] == group_views(found@[i as int]@));
            match group(&found[i], 1) {
                Some(c) => {
                    if !holds(&out, &chars_of(c.as_str())) {
                        let ghost before = texts(out@);
                        out.push(c.clone());
                        assert(texts(out@) =~= before.push(c@));
                    }
                },
                None => {},
            }
            i += 1;
        }
        out
    }

    /// The concepts that a response names: the capitalised names between
    /// backticks, each once, in the order in which they first occur.
    pub fn extract_concepts(&self, response: &str) -> (out: Vec<String>)
        ensures
            texts(out@) == concepts_of(regex_matches(CONCEPT_PATTERN@, response@)),
    {
        match captures(CONCEPT_PATTERN, response) {
            Some(found) => CodebaseQA::concepts_among(&found),
            None => {
                let out: Vec<String> = Vec::new();
                assert(texts(out@) =~= Seq::<Seq<char>>::empty());
                out
            },
        }
    }

    /// The answer that needs no reasoner, given what is known of the files
    /// of the workspace.
    pub fn quick_answer(&self, question: &str, files: WorkspaceFiles) -> (out: Option<String>)
        ensures
            match out {
                Some(a) => quick_answer_text(lowercase(question@), files) == Some(a@),
                None => quick_answer_text(lowercase(question@), files) is None,
            },
    {
        let q = chars_of(to_lowercase(question).as_str());
        if has(&q, "what language") {
            if files.cargo_toml {
                return Some(copy_str("This is a **Rust** project (Cargo.toml found)."));
            }
            if files.package_json {
                return Some(copy_str("This is a **JavaScript/TypeScript** project (package.json found)."));
            }
            if files.requirements_txt {
                return Some(copy_str("This is a **Python** project (requirements.txt found)."));
            }
        }
        if has(&q, "entry point") || has(&q, "main function") {
            if files.main_rs {
                return Some(copy_str("The main entry point is `src/main.rs`."));
            }
            if files.index_ts {
                return Some(copy_str("The main entry point is `src/index.ts`."));
            }
        }
        None
    }
}

} // verus!
