use sly::config::gitignore_with_entry;
use sly::daemon::{generate_launchd_plist, process_event, should_ignore, DaemonAction,
    DaemonConfig, DaemonEvent};
use sly::fingerprint::{Dependency, ProjectFingerprint, ProjectType};
use sly::lint::{LintSeverity, LintViolation, SemanticLinter};
use sly::memory::rows::{store_cache, store_heuristic, store_lesson};
use sly::qa::{CodebaseQA, QuestionType, WorkspaceFiles};
use sly::telegram::escape_markdown_v2;
use sly::telemetry::{Telemetry, TelemetryEvent};

#[test]
fn questions_are_classified_by_their_words() {
    let qa = CodebaseQA::new("/ws");
    assert_eq!(qa.workspace(), "/ws");
    assert_eq!(qa.classify_question("Where is the parser?"), QuestionType::Location);
    assert_eq!(qa.classify_question("How does the bus work?"), QuestionType::Explanation);
    assert_eq!(qa.classify_question("How to add a handler"), QuestionType::Usage);
    assert_eq!(qa.classify_question("What calls dispatch"), QuestionType::Relationship);
    assert_eq!(qa.classify_question("WHY was it removed"), QuestionType::History);
    assert_eq!(qa.classify_question("tokio vs std"), QuestionType::Comparison);
    assert_eq!(qa.classify_question("hello"), QuestionType::Explanation);
    assert_eq!(qa.classify_question("where and why"), QuestionType::Location);
}

#[test]
fn qa_prompt_holds_instruction_context_and_question() {
    let qa = CodebaseQA::new(".");
    let p = qa.build_qa_prompt("Where is main?", "CTX");
    assert!(p.starts_with("You are a codebase expert assistant. Answer questions about the code with precision.\n\n## Instructions\nFind the exact file(s) and line number(s) where the requested item is defined.\n                 Return the file path, line range, and a brief snippet.\n\n## Codebase Context\nCTX\n\n## Question\nWhere is main?\n\n## Response Format\n"));
    assert!(p.ends_with("For explanations, use structured paragraphs with code examples where helpful.\n"));
}

#[test]
fn quick_answers_need_the_files() {
    let qa = CodebaseQA::new(".");
    let none = WorkspaceFiles {
        cargo_toml: false,
        package_json: false,
        requirements_txt: false,
        main_rs: false,
        index_ts: false,
    };
    assert_eq!(qa.quick_answer("What language is this?", none), None);
    assert_eq!(
        qa.quick_answer("What language is this?", WorkspaceFiles { package_json: true, requirements_txt: true, ..none }),
        Some("This is a **JavaScript/TypeScript** project (package.json found).".to_string())
    );
    assert_eq!(
        qa.quick_answer("what language", WorkspaceFiles { cargo_toml: true, package_json: true, ..none }),
        Some("This is a **Rust** project (Cargo.toml found).".to_string())
    );
    assert_eq!(
        qa.quick_answer("Where is the entry point?", WorkspaceFiles { index_ts: true, ..none }),
        Some("The main entry point is `src/index.ts`.".to_string())
    );
    assert_eq!(
        qa.quick_answer("what language has the main function", WorkspaceFiles { main_rs: true, ..none }),
        Some("The main entry point is `src/main.rs`.".to_string())
    );
    assert_eq!(qa.quick_answer("anything else", WorkspaceFiles { main_rs: true, ..none }), None);
}

#[test]
fn lint_response_is_read_from_a_fence_or_from_brackets() {
    let fenced = "Found:\n```json\n[{\"file\":\"a.rs\",\"line\":42,\"severity\":\"Critical\",\"message\":\"deadlock\",\"suggestion\":\"lock A first\"}]\n```\nbye";
    let v = SemanticLinter::parse_response(fenced);
    assert_eq!(
        v,
        vec![LintViolation {
            file: "a.rs".to_string(),
            line: 42,
            severity: LintSeverity::Critical,
            message: "deadlock".to_string(),
            suggestion: Some("lock A first".to_string()),
        }]
    );
    let bare = "see [ {\"file\":\"b\",\"line\":1,\"severity\":\"Warning\",\"message\":\"m\"} ] ok";
    let v = SemanticLinter::parse_response(bare);
    assert_eq!(v.len(), 1);
    assert_eq!(v[0].severity, LintSeverity::Warning);
    assert_eq!(v[0].suggestion, None);
    assert_eq!(SemanticLinter::list_part("x [1, 2] y ] z"), "[1, 2] y ]");
    assert_eq!(SemanticLinter::list_part("] ["), "] [");
    assert_eq!(SemanticLinter::list_part("```json [] "), "```json [] ");
    assert!(SemanticLinter::parse_response("[]").is_empty());
    assert!(SemanticLinter::parse_response("nothing").is_empty());
    assert!(SemanticLinter::parse_response("[{\"file\":\"b\",\"line\":-1,\"severity\":\"Warning\",\"message\":\"m\"}]").is_empty());
    assert!(SemanticLinter::parse_response("[{\"file\":\"b\",\"line\":1,\"severity\":\"Fatal\",\"message\":\"m\"}]").is_empty());
    let p = SemanticLinter::lint_prompt("CODE", "CTX");
    assert!(p.contains("\nCONTEXT:\nCTX\n\nCODE TO LINT:\nCODE\n\nOUTPUT FORMAT:\n"));
    assert!(p.ends_with("    \"suggestion\": \"Acquire lock A before lock B.\"\n  }\n]\n"));
}

#[test]
fn fingerprint_knows_kinds_and_dependencies() {
    assert_eq!(ProjectFingerprint::detect_rust_type("[dependencies]\naxum = \"0.7\""), ProjectType::RustWeb);
    assert_eq!(ProjectFingerprint::detect_rust_type("[lib]\nname = \"x\""), ProjectType::RustLib);
    assert_eq!(ProjectFingerprint::detect_rust_type("[package]"), ProjectType::RustCli);
    let dep = |n: &str| Dependency { name: n.to_string(), version: None };
    assert_eq!(ProjectFingerprint::detect_python_type(&vec![dep("flask"), dep("numpy")]), ProjectType::PythonMl);
    assert_eq!(ProjectFingerprint::detect_python_type(&vec![dep("flask")]), ProjectType::Python);
    let mut fp = ProjectFingerprint {
        project_type: ProjectType::RustLib,
        tech_stack: vec!["Rust".to_string()],
        dependencies: vec![],
    };
    assert_eq!(
        fp.specialized_prompt(),
        "This is a Rust library. Focus on clean public APIs, comprehensive documentation, and avoid unnecessary dependencies."
    );
    assert_eq!(fp.dependency_context(), "");
    fp.dependencies = (0..12).map(|i| dep(&format!("d{}", i))).collect();
    assert_eq!(fp.dependency_context(), "KEY DEPENDENCIES: d0, d1, d2, d3, d4, d5, d6, d7, d8, d9");
    fp.dependencies.truncate(2);
    assert_eq!(fp.dependency_context(), "KEY DEPENDENCIES: d0, d1");
}

#[test]
fn daemon_reacts_to_events() {
    let mut config = DaemonConfig::default();
    assert_eq!(config.debounce_ms, 500);
    assert!(should_ignore(&config, "target/debug/x.rs"));
    assert!(should_ignore(&config, "Cargo.lock"));
    assert!(should_ignore(&config, "a/.git/config"));
    assert!(!should_ignore(&config, "src/main.rs"));
    let modified = |p: &str| DaemonEvent::FileModified(p.to_string());
    assert_eq!(process_event(&config, &modified("src/main.rs")), vec![DaemonAction::RunCheck, DaemonAction::SyncGraph]);
    assert_eq!(process_event(&config, &modified("target/x.rs")), vec![]);
    assert_eq!(process_event(&config, &modified("notes.md")), vec![]);
    config.auto_test = true;
    config.auto_check = false;
    assert_eq!(
        process_event(&config, &DaemonEvent::FileCreated("tests/a_test.py".to_string())),
        vec![DaemonAction::SyncGraph, DaemonAction::RunTests]
    );
    assert_eq!(process_event(&config, &DaemonEvent::FileDeleted("src/a.rs".to_string())), vec![]);
    assert_eq!(
        process_event(&config, &DaemonEvent::ErrorOccurred("disk".to_string())),
        vec![DaemonAction::NotifyUser("Error: disk".to_string())]
    );
    assert_eq!(
        process_event(&config, &DaemonEvent::TaskCompleted("Fix Bug".to_string())),
        vec![DaemonAction::NotifyUser("Task completed: Fix Bug".to_string())]
    );
    config.auto_pr = true;
    assert_eq!(
        process_event(&config, &DaemonEvent::TaskCompleted("Fix The Bug".to_string())),
        vec![
            DaemonAction::GeneratePR { title: "Automated: Fix The Bug".to_string(), branch: "sly/fix-the-bug".to_string() },
            DaemonAction::NotifyUser("Task completed: Fix The Bug".to_string()),
        ]
    );
    let plist = generate_launchd_plist("/bin/sly", "/ws");
    assert!(plist.starts_with("<?xml version=\"1.0\" encoding=\"UTF-8\"?>\n"));
    assert!(plist.contains("        <string>/bin/sly</string>\n        <string>--daemon</string>\n        <string>--workspace</string>\n        <string>/ws</string>\n"));
    assert!(plist.ends_with("    <key>WorkingDirectory</key>\n    <string>/ws</string>\n</dict>\n</plist>"));
}

#[test]
fn telemetry_and_markdown() {
    assert_eq!(Telemetry::message(TelemetryEvent::Thinking), "Thinking.");
    assert_eq!(Telemetry::message(TelemetryEvent::Done), "Task complete.");
    assert_eq!(Telemetry::message(TelemetryEvent::Error), "Error encountered.");
    assert_eq!(Telemetry::message(TelemetryEvent::Custom("Hi".to_string())), "Hi");
    assert_eq!(escape_markdown_v2("a_b*c.d!"), "a\\_b\\*c\\.d\\!");
    assert_eq!(escape_markdown_v2("plain text"), "plain text");
    assert_eq!(escape_markdown_v2("(x)[y]{z}"), "\\(x\\)\\[y\\]\\{z\\}");
}

#[test]
fn notes_and_cache_writes_get_fresh_ids() {
    let a = store_lesson("be careful");
    let b = store_lesson("be careful");
    assert_ne!(a.id, b.id);
    assert_eq!(a.node_type, "lesson");
    assert_eq!(a.path, "global");
    assert_eq!(a.content, "be careful");
    assert!(a.edges.is_empty());
    assert_eq!(store_heuristic("h").node_type, "heuristic");
    let w = store_cache("Capital of France?", "Paris");
    assert_eq!(w.event.op, "store_cache");
    assert_eq!(w.query.params.len(), 4);
    assert!(w.query.mutable);
}

#[test]
fn ignore_file_gets_the_entry_once() {
    assert_eq!(gitignore_with_entry("target/\n"), Some("target/\n\n# Sly Agent Data\n.sly/\n".to_string()));
    assert_eq!(gitignore_with_entry(""), Some("\n# Sly Agent Data\n.sly/\n".to_string()));
    assert_eq!(gitignore_with_entry("a\n.sly/\n"), None);
}

#[test]
fn staged_api_keys_are_seen() {
    let key = format!("AIzaSy{}", "a".repeat(33));
    assert!(sly::security::Security::holds_api_key(&format!("+ let k = \"{}\";", key)));
    assert!(!sly::security::Security::holds_api_key("+ let k = \"AIzaSy-short\";"));
}

#[test]
fn cargo_dependencies_are_read_from_their_tables() {
    let manifest = "[package]\nname = \"x\"\n\n[dependencies]\nserde = \"1.0\"\ntokio = { version = \"1\" }\n# note\n\n[features]\nfull = []\n[dev-dependencies]\n  rand   =   \"0.8\"  \n";
    let deps = ProjectFingerprint::parse_cargo_deps(manifest);
    let got: Vec<(String, Option<String>)> = deps.into_iter().map(|d| (d.name, d.version)).collect();
    assert_eq!(
        got,
        vec![
            ("serde".to_string(), Some("1.0".to_string())),
            ("tokio".to_string(), Some("{ version = \"1\" }".to_string())),
            ("rand".to_string(), Some("0.8".to_string())),
        ]
    );
    assert!(ProjectFingerprint::parse_cargo_deps("name = \"x\"").is_empty());
}

#[test]
fn requirements_are_read_line_by_line() {
    let text = "# comment\nflask==2.0\n\nnumpy>=1.20\nrequests\n  pandas < 2 \n   \n";
    let deps = ProjectFingerprint::parse_requirements(text);
    let got: Vec<(String, Option<String>)> = deps.into_iter().map(|d| (d.name, d.version)).collect();
    assert_eq!(
        got,
        vec![
            ("flask".to_string(), Some("2.0".to_string())),
            ("numpy".to_string(), Some("1.20".to_string())),
            ("requests".to_string(), None),
            ("pandas".to_string(), Some("2".to_string())),
        ]
    );
}

#[test]
fn sources_are_read_from_a_response() {
    let qa = CodebaseQA::new(".");
    let response = "intro\nFILE: src/a.rs\nLINES: 10-20\nSNIPPET: fn a()\nnoise\n  FILE:  src/b.rs \nLINES: 7\nFILE: src/c.rs\nLINES: x-9\nFILE: src/d.rs\nLINES: 1-2-3\nLINES: 5-\n";
    let got: Vec<(String, usize, usize, String, u8)> = qa
        .parse_sources(response)
        .into_iter()
        .map(|s| (s.file, s.line_start, s.line_end, s.snippet, s.relevance_percent))
        .collect();
    assert_eq!(
        got,
        vec![
            ("src/a.rs".to_string(), 10, 20, "fn a()".to_string(), 100),
            ("src/b.rs".to_string(), 7, 7, String::new(), 100),
            ("src/c.rs".to_string(), 0, 9, String::new(), 100),
            ("src/d.rs".to_string(), 5, 5, String::new(), 100),
        ]
    );
    assert!(qa.parse_sources("LINES: 3\nSNIPPET: x").is_empty());
    assert_eq!(qa.parse_sources("FILE: a\nLINES: +007-0012")[0].line_end, 12);
}

#[test]
fn concepts_are_named_once_in_order() {
    let qa = CodebaseQA::new(".");
    assert_eq!(
        qa.extract_concepts("Use `Memory` with `OverlayFS`, then `Memory` again; `lower` and `X` do not count."),
        vec!["Memory".to_string(), "OverlayFS".to_string()]
    );
    assert!(qa.extract_concepts("nothing").is_empty());
}
