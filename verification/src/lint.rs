//! The semantic linter: the request that asks the reasoner for violations,
//! and the reading of its answer.

use crate::json::{field, json_value, parse_json, text_field, values, Json, JsonV};
use crate::knowledge::scanner::last_index;
use crate::text::{chars_of, decimal, find, find_from, lemma_find_from, parse_u64, push_str,
    slice_of, str_eq, string_of, trim, trimmed};
use vstd::prelude::*;

verus! {

/// How grave a violation is.
#[derive(Debug, Clone, Copy, PartialEq, Eq)]
pub enum LintSeverity {
    Critical,
    Warning,
    Suggestion,
}

/// One violation that the linter found.
#[derive(Debug, Clone, PartialEq)]
pub struct LintViolation {
    pub file: String,
    pub line: usize,
    pub severity: LintSeverity,
    pub message: String,
    pub suggestion: Option<String>,
}

/// The mathematical value of a [`LintViolation`].
pub struct ViolationV {
    pub file: Seq<char>,
    pub line: usize,
    pub severity: LintSeverity,
    pub message: Seq<char>,
    pub suggestion: Option<Seq<char>>,
}

impl View for LintViolation {
    type V = ViolationV;

    open spec fn view(&self) -> ViolationV {
        ViolationV {
            file: self.file@,
            line: self.line,
            severity: self.severity,
            message: self.message@,
            suggestion: match self.suggestion {
                Some(s) => Some(s@),
                None => None,
            },
        }
    }
}

/// The values of a list of violations.
pub open spec fn violation_views(list: Seq<LintViolation>) -> Seq<ViolationV> {
    list.map_values(|v: LintViolation| v@)
}

pub struct SemanticLinter;

/// The request that asks for the violations in a piece of code.
pub open spec fn lint_prompt_text(code: Seq<char>, context: Seq<char>) -> Seq<char> {
    "You are a Semantic Code Linter - an AI expert in finding subtle bugs, security vulnerabilities, and logical errors.\nYour goal is to find issues that traditional static analysis (like compiler checks or standard linters) CANNOT find.\nFocus on:\n1. Race conditions or concurrency bugs\n2. API misuse or edge cases\n3. Logic errors (off-by-one, infinite loops)\n4. Security vulnerabilities (injection, auth bypass)\n5. Architectural inconsistencies\n\nCONTEXT:\n"@ + context + "\n\nCODE TO LINT:\n"@ + code + "\n\nOUTPUT FORMAT:\nProvide a JSON array of violations. If no issues are found, return an empty array [].\nExample:\n[\n  {\n    \"file\": \"src/main.rs\",\n    \"line\": 42,\n    \"severity\": \"Critical\",\n    \"message\": \"Potential deadlock here due to lock ordering.\",\n    \"suggestion\": \"Acquire lock A before lock B.\"\n  }\n]\n"@
}

/// The part of a response that holds the list: the trimmed text behind the
/// first `json` fence up to the next fence; without such a block, the text
/// from the first `[` to the last `]`; else the whole response.
pub open spec fn list_text(r: Seq<char>) -> Seq<char> {
    match find_from(r, "```json"@, 0) {
        Some(open) => match find_from(r, "```"@, open + 7) {
            Some(close) => trimmed(r.subrange(open + 7, close)),
            None => r,
        },
        None => match find_from(r, "["@, 0) {
            Some(first) => {
                let last = last_index(r, ']', r.len() as int);
                if first <= last {
                    r.subrange(first, last + 1)
                } else {
                    r
                }
            },
            None => r,
        },
    }
}

/// The severity that a word names.
pub open spec fn severity_of(word: Seq<char>) -> Option<LintSeverity> {
    if word == "Critical"@ {
        Some(LintSeverity::Critical)
    } else if word == "Warning"@ {
        Some(LintSeverity::Warning)
    } else if word == "Suggestion"@ {
        Some(LintSeverity::Suggestion)
    } else {
        None
    }
}

/// The count that a member writes, if it writes one that fits.
pub open spec fn line_field(v: JsonV) -> Option<usize> {
    match field(v, "line"@) {
        Some(JsonV::Number(t)) => if exists|n: usize| t == decimal(n as nat) {
            Some(choose|n: usize| t == decimal(n as nat))
        } else {
            None
        },
        _ => None,
    }
}

/// A suggestion may be missing or `null`; else it must be a text.
pub open spec fn suggestion_field(v: JsonV) -> Option<Option<Seq<char>>> {
    match field(v, "suggestion"@) {
        None => Some(None),
        Some(JsonV::Null) => Some(None),
        Some(JsonV::Text(t)) => Some(Some(t)),
        Some(_) => None,
    }
}

/// The violation that a JSON value describes.
pub open spec fn violation_of(v: JsonV) -> Option<ViolationV> {
    match (text_field(v, "file"@), line_field(v), text_field(v, "severity"@), text_field(
        v,
        "message"@,
    ), suggestion_field(v)) {
        (Some(file), Some(line), Some(word), Some(message), Some(suggestion)) => match severity_of(
            word,
        ) {
            Some(severity) => Some(ViolationV { file, line, severity, message, suggestion }),
            None => None,
        },
        _ => None,
    }
}

/// The violations that a JSON value lists: all of them, or none at all
/// where the value is no list of violations.
pub open spec fn violations_of(v: Option<JsonV>) -> Seq<ViolationV> {
    match v {
        Some(JsonV::Array(items)) => if forall|i: int|
            0 <= i < items.len() ==> violation_of(#[trigger] items[i]) is Some {
            Seq::new(items.len(), |i: int| violation_of(items[i])->0)
        } else {
            seq![]
        },
        _ => seq![],
    }
}

fn read_line(j: &Json) -> (out: Option<usize>)
    ensures
        out == line_field(j@),
{
    match j.get("line") {
        Some(Json::Number(t)) => match parse_u64(&chars_of(t.as_str())) {
            Some(n) => {
                if n > usize::MAX as u64 {
                    assert forall|m: usize| t@ != decimal(m as nat) by {
                        if t@ == decimal(m as nat) {
                            crate::text::lemma_decimal_injective(n as nat, m as nat);
                        }
                    }
                    None
                } else {
                    proof {
                        let w = choose|m: usize| t@ == decimal(m as nat);
                        crate::text::lemma_decimal_injective(n as nat, w as nat);
                    }
                    Some(n as usize)
                }
            },
            None => None,
        },
        _ => None,
    }
}

fn read_severity(word: &str) -> (out: Option<LintSeverity>)
    ensures
        out == severity_of(word@),
{
    if str_eq(word, "Critical") {
        Some(LintSeverity::Critical)
    } else if str_eq(word, "Warning") {
        Some(LintSeverity::Warning)
    } else if str_eq(word, "Suggestion") {
        Some(LintSeverity::Suggestion)
    } else {
        None
    }
}

impl LintViolation {
    /// Reads a violation from a JSON value.
    pub fn from_json(j: &Json) -> (out: Option<LintViolation>)
        ensures
            match out {
                Some(v) => violation_of(j@) == Some(v@),
                None => violation_of(j@) is None,
            },
    {
        let suggestion = match j.get("suggestion") {
            None => None,
            Some(Json::Null) => None,
            Some(Json::Text(t)) => Some(t.clone()),
            Some(_) => {
                return None;
            },
        };
        match (j.text_at("file"), read_line(j), j.text_at("severity"), j.text_at("message")) {
            (Some(file), Some(line), Some(word), Some(message)) => match read_severity(
                word.as_str(),
            ) {
                Some(severity) => Some(
                    LintViolation {
                        file: file.clone(),
                        line,
                        severity,
                        message: message.clone(),
                        suggestion,
                    },
                ),
                None => None,
            },
            _ => None,
        }
    }
}

impl SemanticLinter {
    /// The request that asks for the violations in a piece of code.
    pub fn lint_prompt(code: &str, context: &str) -> (out: String)
        ensures
            out@ == lint_prompt_text(code@, context@),
    {
        let mut buf = chars_of("You are a Semantic Code Linter - an AI expert in finding subtle bugs, security vulnerabilities, and logical errors.\nYour goal is to find issues that traditional static analysis (like compiler checks or standard linters) CANNOT find.\nFocus on:\n1. Race conditions or concurrency bugs\n2. API misuse or edge cases\n3. Logic errors (off-by-one, infinite loops)\n4. Security vulnerabilities (injection, auth bypass)\n5. Architectural inconsistencies\n\nCONTEXT:\n");
        push_str(&mut buf, context);
        push_str(&mut buf, "\n\nCODE TO LINT:\n");
        push_str(&mut buf, code);
        push_str(&mut buf, "\n\nOUTPUT FORMAT:\nProvide a JSON array of violations. If no issues are found, return an empty array [].\nExample:\n[\n  {\n    \"file\": \"src/main.rs\",\n    \"line\": 42,\n    \"severity\": \"Critical\",\n    \"message\": \"Potential deadlock here due to lock ordering.\",\n    \"suggestion\": \"Acquire lock A before lock B.\"\n  }\n]\n");
        string_of(&buf)
    }

    /// The part of a response that holds the list.
    pub fn list_part(response: &str) -> (out: String)
        ensures
            out@ == list_text(response@),
    {
        let r = chars_of(response);
        proof {
            reveal_strlit("```json");
            reveal_strlit("```");
            reveal_strlit("[");
            lemma_find_from(r@, "```json"@, 0);
            lemma_find_from(r@, "["@, 0);
        }
        match find(&r, &chars_of("```json"), 0) {
            Some(open) => {
                proof {
                    assert("```json"@.len() == 7);
                    assert(crate::text::occurs_at(r@, "```json"@, open as int));
                    assert(open + 7 <= r.len());
                    lemma_find_from(r@, "```"@, open + 7);
                }
                match find(&r, &chars_of("```"), open + 7) {
                    Some(close) => string_of(&trim(&slice_of(&r, open + 7, close))),
                    None => string_of(&r),
                }
            },
            None => match find(&r, &chars_of("["), 0) {
                Some(first) => {
                    let mut end: usize = r.len();
                    while end > 0 && r[end - 1] != ']'
                        invariant
                            end <= r.len(),
                            last_index(r@, ']', r.len() as int) == last_index(
                                r@,
                                ']',
                                end as int,
                            ),
                        decreases end,
                    {
                        end -= 1;
                    }
                    if end > first {
                        string_of(&slice_of(&r, first, end))
                    } else {
                        string_of(&r)
                    }
                },
                None => string_of(&r),
            },
        }
    }

    /// The violations that a JSON value lists.
    pub fn violations_from(j: &Option<Json>) -> (out: Vec<LintViolation>)
        ensures
            violation_views(out@) == violations_of(
                match j {
                    Some(v) => Some(v@),
                    None => None,
                },
            ),
    {
        let mut out: Vec<LintViolation> = Vec::new();
        assert(violation_views(out@) =~= Seq::<ViolationV>::empty());
        let items = match j {
            Some(v) => match v.as_items() {
                Some(items) => items,
                None => {
                    return out;
                },
            },
            None => {
                return out;
            },
        };
        let ghost all = values(items@);
        let mut i: usize = 0;
        while i < items.len()
            invariant
                i <= items.len(),
                all == values(items@),
                j matches Some(v) && v@ == JsonV::Array(all),
                out@.len() == i,
                forall|k: int| 0 <= k < i ==> violation_of(#[trigger] all[k]) == Some(out@[k]@),
            decreases items.len() - i,
        {
            assert(all[i as int] == items@[i as int]@);
            match LintViolation::from_json(&items[i]) {
                Some(v) => {
                    out.push(v);
                },
                None => {
                    assert(violation_of(all[i as int]) is None);
                    let none: Vec<LintViolation> = Vec::new();
                    assert(violation_views(none@) =~= Seq::<ViolationV>::empty());
                    return none;
                },
            }
            i += 1;
        }
        assert(violation_views(out@) =~= violations_of(Some(JsonV::Array(all))));
        out
    }

    /// The violations that a response of the reasoner lists; none where
    /// the list cannot be read.
    pub fn parse_response(response: &str) -> (out: Vec<LintViolation>)
        ensures
            violation_views(out@) == violations_of(json_value(list_text(response@))),
    {
        let part = SemanticLinter::list_part(response);
        SemanticLinter::violations_from(&parse_json(part.as_str()))
    }
}

} // verus!
