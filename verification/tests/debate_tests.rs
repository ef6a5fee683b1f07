use sly::debate::{Debate, DebateRound, DebateSeverity, Persona};
use sly::janitor::Janitor;
use sly::reflexion::{Reflexion, ReflexionEngine};
use sly::sorting::{insert_sorted, rank, sorted_unique, Rank};
use sly::text::{chars_of, contains, ends_with, find, lines, parse_i64, parse_u64, push_decimal,
    push_signed_decimal, replace, starts_with, string_of, trim};

#[test]
fn personas_have_their_priorities() {
    let p = Persona::security_auditor();
    assert_eq!(p.name, "Security Auditor");
    assert_eq!(p.role, "security");
    assert_eq!(p.priorities.len(), 5);
    assert_eq!(p.priorities[0], "Input validation");
    assert!(p.system_prompt.starts_with("You are a Security Auditor"));
    assert!(p.system_prompt.ends_with("Propose specific mitigations for any issues found."));
    assert_eq!(Persona::performance_optimizer().role, "performance");
    assert_eq!(Persona::architecture_purist().priorities[4], "Testability");
    assert_eq!(Persona::ux_advocate().name, "UX Advocate");
}

#[test]
fn prompts_are_made_for_each_persona() {
    let prompts = Debate::security_vs_performance().generate_prompts("ctx", "change");
    assert_eq!(prompts.len(), 2);
    assert_eq!(prompts[0].0, "Security Auditor");
    assert_eq!(prompts[1].0, "Performance Optimizer");
    assert!(prompts[0].1.contains("\n\n## Context\nctx\n\n## Proposed Change\nchange\n\n## Your Review\nProvide your critique as Security Auditor. Format your response as:"));
    assert!(prompts[1].1.ends_with("SEVERITY: [CRITICAL|IMPORTANT|MINOR|NEUTRAL]"));
    assert_eq!(Debate::full_review().generate_prompts("", "").len(), 4);
    assert!(Debate::new().generate_prompts("a", "b").is_empty());
    assert_eq!(Debate::default().with_persona(Persona::ux_advocate()).generate_prompts("", "").len(), 1);
}

#[test]
fn response_is_read_by_sections() {
    let response = "intro\nCRITIQUE:\n  The lock order is wrong.  \nIt can deadlock.\n\nSUGGESTIONS:\n- Take A before B\n* Add a test\nnot a bullet\nSEVERITY:  critical \n";
    let round = Debate::parse_response("Security Auditor", response);
    assert_eq!(round.persona, "Security Auditor");
    assert_eq!(round.critique, "The lock order is wrong.\nIt can deadlock.");
    assert_eq!(round.suggestions, vec!["Take A before B".to_string(), "Add a test".to_string()]);
    assert_eq!(round.severity, DebateSeverity::Critical);
    let plain = Debate::parse_response("x", "nothing here");
    assert_eq!(plain.severity, DebateSeverity::Neutral);
    assert_eq!(plain.critique, "");
    assert!(plain.suggestions.is_empty());
    assert_eq!(Debate::parse_response("x", "SEVERITY: Minor").severity, DebateSeverity::Minor);
    assert_eq!(Debate::parse_response("x", "SEVERITY: IMPORTANT").severity, DebateSeverity::Important);
    assert_eq!(Debate::parse_response("x", "SEVERITY: dire").severity, DebateSeverity::Neutral);
}

fn round(persona: &str, severity: DebateSeverity, suggestions: Vec<&str>) -> DebateRound {
    DebateRound {
        persona: persona.to_string(),
        critique: String::new(),
        suggestions: suggestions.into_iter().map(|s| s.to_string()).collect(),
        severity,
    }
}

#[test]
fn synthesis_ranks_by_severity_and_keeps_order() {
    let rounds = vec![
        round("ux", DebateSeverity::Minor, vec!["m1", "m2"]),
        round("sec", DebateSeverity::Critical, vec!["c1"]),
        round("perf", DebateSeverity::Important, vec!["i1"]),
        round("arch", DebateSeverity::Critical, vec!["c2"]),
        round("none", DebateSeverity::Neutral, vec!["n1"]),
    ];
    let s = Debate::synthesize(&rounds);
    let items: Vec<(u8, &str, Option<&str>)> = s
        .action_items
        .iter()
        .map(|a| (a.priority, a.description.as_str(), a.assigned_to.as_deref()))
        .collect();
    assert_eq!(
        items,
        vec![
            (1, "c1", Some("sec")),
            (1, "c2", Some("arch")),
            (2, "i1", Some("perf")),
            (3, "m1", Some("ux")),
            (3, "m2", Some("ux")),
            (4, "n1", Some("none")),
        ]
    );
    assert_eq!(s.summary, "Critical issues identified that must be addressed before proceeding.");
    assert_eq!(s.final_recommendation, "HOLD: Address critical issues before implementation.");
    assert!(s.consensus_points.is_empty());
    assert!(s.conflicts.is_empty());
    let mild = Debate::synthesize(&rounds[2..3]);
    assert_eq!(mild.summary, "Important concerns raised that should be addressed.");
    assert_eq!(mild.final_recommendation, "PROCEED WITH CAUTION: Implement suggested improvements.");
    let fine = Debate::synthesize(&[]);
    assert_eq!(fine.final_recommendation, "APPROVED: Proceed with implementation.");
    assert_eq!(fine.summary, "No significant issues identified. Proceed with minor adjustments if suggested.");
}

#[test]
fn triples_are_the_marked_lines() {
    let content = "Here you go:\n- (Sly) --[uses]--> (Tokio)\n  - (User) --[dislikes]--> (Python)  \n- not a triple\n- (Broken) arrow\n";
    assert_eq!(
        Janitor::parse_triples(content),
        vec!["(Sly) --[uses]--> (Tokio)".to_string(), "(User) --[dislikes]--> (Python)".to_string()]
    );
    assert!(Janitor::extraction_prompt().starts_with("You are a Knowledge Graph Extractor."));
    assert!(Reflexion::critique_prompt().ends_with("Output ONLY the HEURISTIC lines, nothing else."));
    let _ = ReflexionEngine::new();
    let _ = ReflexionEngine::default();
}

#[test]
fn heuristics_without_matches() {
    assert!(Reflexion::parse_heuristics("no lessons").is_empty());
    assert_eq!(Reflexion::parse_heuristics("HEURISTIC:   spaced   "), vec!["spaced".to_string()]);
}

#[test]
fn texts_are_ranked_like_a_dictionary() {
    let r = |a: &str, b: &str| rank(&chars_of(a), &chars_of(b));
    assert_eq!(r("abc", "abd"), Rank::Before);
    assert_eq!(r("abc", "abc"), Rank::Same);
    assert_eq!(r("abc", "ab"), Rank::After);
    assert_eq!(r("", "a"), Rank::Before);
    assert_eq!(r("Z", "a"), Rank::Before);
    let sorted = sorted_unique(vec!["pear", "apple", "fig", "apple", "Fig"].into_iter().map(String::from).collect());
    assert_eq!(sorted, vec!["Fig", "apple", "fig", "pear"]);
    let mut list = vec!["b".to_string(), "d".to_string()];
    insert_sorted(&mut list, "c".to_string());
    insert_sorted(&mut list, "a".to_string());
    insert_sorted(&mut list, "e".to_string());
    insert_sorted(&mut list, "c".to_string());
    assert_eq!(list, vec!["a", "b", "c", "d", "e"]);
}

#[test]
fn text_primitives_agree_with_std() {
    let s = chars_of("  héllo\twörld \r\n");
    assert_eq!(string_of(&trim(&s)), "héllo\twörld");
    assert_eq!(string_of(&trim(&chars_of("\u{a0}x\u{3000}"))), "x");
    assert_eq!(string_of(&trim(&chars_of(" \n "))), "");
    let text = chars_of("one\r\ntwo\n\nthree\r");
    let got: Vec<String> = lines(&text).iter().map(string_of).collect();
    let want: Vec<&str> = "one\r\ntwo\n\nthree\r".lines().collect();
    assert_eq!(got, want);
    let ended: Vec<String> = lines(&chars_of("a\nb\n")).iter().map(string_of).collect();
    assert_eq!(ended, vec!["a", "b"]);
    assert!(lines(&chars_of("")).is_empty());
    assert_eq!(find(&chars_of("abcabc"), &chars_of("bc"), 2), Some(4));
    assert_eq!(find(&chars_of("abcabc"), &chars_of("bc"), 5), None);
    assert_eq!(find(&chars_of("abc"), &chars_of(""), 3), Some(3));
    assert!(contains(&chars_of("abc"), &chars_of("bc")));
    assert!(starts_with(&chars_of("abc"), &chars_of("ab")));
    assert!(!starts_with(&chars_of("a"), &chars_of("ab")));
    assert!(ends_with(&chars_of("abc"), &chars_of("bc")));
    assert_eq!(string_of(&replace(&chars_of("aaa"), &chars_of("aa"), &chars_of("b"))), "aaa".replace("aa", "b"));
    assert_eq!(string_of(&replace(&chars_of("a b c"), &chars_of(" "), &chars_of("_"))), "a_b_c");
    assert_eq!(string_of(&replace(&chars_of("abc"), &chars_of(""), &chars_of("x"))), "abc");
}

#[test]
fn numbers_are_written_and_read_in_decimal() {
    let mut buf = Vec::new();
    push_decimal(&mut buf, 0);
    push_decimal(&mut buf, 18446744073709551615);
    push_signed_decimal(&mut buf, i64::MIN);
    push_signed_decimal(&mut buf, 42);
    assert_eq!(string_of(&buf), "018446744073709551615-922337203685477580842");
    assert_eq!(parse_u64(&chars_of("18446744073709551615")), Some(u64::MAX));
    assert_eq!(parse_u64(&chars_of("18446744073709551616")), None);
    assert_eq!(parse_u64(&chars_of("007")), None);
    assert_eq!(parse_u64(&chars_of("")), None);
    assert_eq!(parse_u64(&chars_of("0")), Some(0));
    assert_eq!(parse_u64(&chars_of("12a")), None);
    assert_eq!(parse_i64(&chars_of("-9223372036854775808")), Some(i64::MIN));
    assert_eq!(parse_i64(&chars_of("-9223372036854775809")), None);
    assert_eq!(parse_i64(&chars_of("9223372036854775807")), Some(i64::MAX));
    assert_eq!(parse_i64(&chars_of("9223372036854775808")), None);
    assert_eq!(parse_i64(&chars_of("-0")), None);
    assert_eq!(parse_i64(&chars_of("-")), None);
    assert_eq!(parse_i64(&chars_of("+1")), None);
    assert_eq!(parse_i64(&chars_of("-17")), Some(-17));
}
