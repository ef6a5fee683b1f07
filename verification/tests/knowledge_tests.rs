use sly::knowledge::extractor::Extractor;
use sly::knowledge::ingest::{commit_nodes, ensure_skills_loaded, ingest_batch, ingest_file,
    FileOutcome};
use sly::knowledge::parser::{extract_potential_edges, is_keyword, parse_rust, RustVisitor};
use sly::knowledge::scanner::{content_hash, extension_of, FileValue, Scanner};
use sly::memory::requests::Datum;

#[test]
fn test_parse_simple() {
    let code = r#"
            pub struct User {
                username: String,
            }

            pub fn create_user(username: String) -> User {
                User { username }
            }
        "#;
    let nodes = parse_rust(code).expect("Parse failed");

    let struct_node = nodes.iter().find(|n| n.kind == "struct").expect("Struct missing");
    assert_eq!(struct_node.id, "struct:User");

    let fn_node = nodes.iter().find(|n| n.kind == "fn").expect("Fn missing");
    assert_eq!(fn_node.id, "fn:create_user");

    assert!(fn_node.edges.contains(&"User".to_string()));
}

#[test]
fn test_impl_block() {
    let code = r#"
            struct Car;
            
            impl Car {
                pub fn drive(&self) {
                    println!("Vrum");
                }
            }
        "#;
    let nodes = parse_rust(code).expect("Parse failed");

    let impl_node = nodes.iter().find(|n| n.kind == "impl").expect("Impl node missing");
    assert_eq!(impl_node.id, "impl:Car");

    let method = nodes.iter().find(|n| n.kind == "method").expect("Method missing");
    assert_eq!(method.id, "fn:Car:drive");
    assert_eq!(method.edges[0], "struct:Car");
}

#[test]
fn trait_impl_is_named_after_trait_and_type() {
    let code = "struct A; trait T { fn f(&self); } impl T for A { fn f(&self) {} }";
    let nodes = parse_rust(code).expect("Parse failed");
    let block = nodes.iter().find(|n| n.kind == "impl_trait").expect("impl missing");
    assert_eq!(block.id, "impl_trait:T_for_A");
    assert_eq!(block.signature, "impl T for A");
    assert_eq!(block.content, "impl T for A { ... }");
    assert_eq!(block.edges, vec!["struct:A".to_string()]);
    let tr = nodes.iter().find(|n| n.kind == "trait").expect("trait missing");
    assert_eq!(tr.id, "trait:T");
    assert_eq!(tr.signature, "trait T");
}

#[test]
fn items_of_inline_modules_are_read() {
    let code = "mod inner { pub enum Colour { Red } pub fn paint() {} }";
    let nodes = parse_rust(code).expect("Parse failed");
    let ids: Vec<&str> = nodes.iter().map(|n| n.id.as_str()).collect();
    assert_eq!(ids, vec!["enum:Colour", "fn:paint"]);
}

#[test]
fn text_that_is_no_rust_does_not_parse() {
    assert!(parse_rust("fn (").is_none());
}

#[test]
fn edges_are_sorted_unique_long_and_uncommon() {
    let edges = extract_potential_edges("let zed = make(alpha, alpha); unwrap(beta1); abc");
    assert_eq!(edges, vec!["alpha".to_string(), "beta1".to_string(), "make".to_string()]);
}

#[test]
fn keywords_are_known() {
    assert!(is_keyword("unwrap"));
    assert!(is_keyword("fn"));
    assert!(!is_keyword("User"));
}

#[test]
fn ids_carry_the_scope() {
    let mut v = RustVisitor::new();
    assert_eq!(v.generate_id("f", "fn"), "fn:f");
    v.current_scope.push("a".to_string());
    v.current_scope.push("b".to_string());
    assert_eq!(v.generate_id("f", "fn"), "fn:a::b:f");
}

#[test]
fn extension_is_what_follows_the_last_dot() {
    assert_eq!(extension_of("src/main.RS"), "RS");
    assert_eq!(extension_of("a/b.tar.gz"), "gz");
    assert_eq!(extension_of(".bashrc"), "");
    assert_eq!(extension_of("Makefile"), "");
    assert_eq!(extension_of("a/.."), "");
    assert_eq!(extension_of("a/b."), "");
}

#[test]
fn hash_is_sha256_in_hex() {
    assert_eq!(
        content_hash("hello world"),
        "b94d27b9934d3e08a52e52d7da7dabfac484efe37a5380ee9088f7ace2efcde9"
    );
    assert_eq!(
        content_hash(""),
        "e3b0c44298fc1c149afbf4c8996fb92427ae41e4649b934ca495991b7852b855"
    );
}

#[test]
fn scan_skips_what_is_not_ingested() {
    assert!(Scanner::scan_file("a.png", true, "x").is_none());
    assert!(Scanner::scan_file("a.rs", false, "x").is_none());
    assert!(!Scanner::accepts("dir/file.exe", true));
    assert!(Scanner::accepts("dir/file.TXT", true));
    let file = Scanner::scan_file("docs/Readme.MD", true, "# Title").expect("scanned");
    assert_eq!(file.extension, "md");
    assert_eq!(file.path, "docs/Readme.MD");
    assert_eq!(file.content, "# Title");
    assert_eq!(file.hash, content_hash("# Title"));
}

fn file(path: &str, content: &str, extension: &str) -> FileValue {
    FileValue {
        path: path.to_string(),
        content: content.to_string(),
        hash: content_hash(content),
        extension: extension.to_string(),
    }
}

#[test]
fn markdown_headings_become_nodes() {
    let nodes = Extractor::extract_symbols(&file("a.md", "# Getting Started\ntext\n## Sub\n# Next One\n", "md"));
    let ids: Vec<&str> = nodes.iter().map(|n| n.id.as_str()).collect();
    assert_eq!(ids, vec!["doc:getting_started", "doc:next_one"]);
    assert_eq!(nodes[0].content, "# Getting Started");
    assert_eq!(nodes[0].node_type, "markdown_heading");
    assert_eq!(nodes[0].path, "a.md");
}

#[test]
fn other_files_give_the_file_node_with_200_characters() {
    let content = "x".repeat(250);
    let nodes = Extractor::extract_symbols(&file("notes.txt", &content, "txt"));
    assert_eq!(nodes.len(), 1);
    assert_eq!(nodes[0].id, "file:notes.txt");
    assert_eq!(nodes[0].node_type, "file");
    assert_eq!(nodes[0].content.chars().count(), 200);
    let short = Extractor::extract_symbols(&file("n.py", "print(1)", "py"));
    assert_eq!(short[0].content, "print(1)");
}

#[test]
fn rust_that_does_not_parse_falls_back_to_patterns() {
    let nodes = Extractor::extract_symbols(&file(
        "bad.rs",
        "pub fn alpha( {{{ \n pub struct Beta \n pub   fn gamma_2",
        "rs",
    ));
    let ids: Vec<&str> = nodes.iter().map(|n| n.id.as_str()).collect();
    assert_eq!(ids, vec!["fn:alpha", "fn:gamma_2", "struct:Beta"]);
    assert_eq!(nodes[0].content, "Function definition: pub fn alpha");
    assert_eq!(nodes[2].content, "Struct definition: pub struct Beta");
    let none = Extractor::extract_regex("fn private() {", "rs", "p.rs");
    assert_eq!(none.len(), 1);
    assert_eq!(none[0].id, "file:p.rs");
}

#[test]
fn rust_that_parses_gives_graph_nodes_with_the_path() {
    let nodes = Extractor::extract_symbols(&file("src/lib.rs", "pub struct S; fn f() { S; }", "rs"));
    assert_eq!(nodes.len(), 2);
    assert_eq!(nodes[0].id, "struct:S");
    assert_eq!(nodes[0].node_type, "struct");
    assert_eq!(nodes[0].path, "src/lib.rs");
    assert_eq!(nodes[1].id, "fn:f");
}

#[test]
fn unchanged_file_is_not_ingested_again() {
    let f = file("a.txt", &"y".repeat(120), "txt");
    let first = ingest_file(&f, &None, 7).expect("first pass ingests");
    assert!(first.batch.is_some());
    assert_eq!(first.sync.params[1].value, Datum::Text(f.hash.clone()));
    assert_eq!(first.sync.params[2].value, Datum::Int(7));
    let stored = Some((7, f.hash.clone()));
    assert!(ingest_file(&f, &stored, 8).is_none());
    let changed = file("a.txt", "z", "txt");
    let again = ingest_file(&changed, &stored, 9).expect("changed file is ingested");
    assert!(again.batch.is_some());
}

#[test]
fn commit_without_nodes_only_updates_the_sync_log() {
    let f = file("a.txt", "c", "txt");
    let commit = commit_nodes(&Vec::new(), &f, 1);
    assert!(commit.batch.is_none());
    assert!(commit.sync.mutable);
}

#[test]
fn five_skills_are_built_in() {
    let queries = ensure_skills_loaded();
    assert_eq!(queries.len(), 5);
    assert_eq!(queries[0].params[0].value, Datum::Text("sly_sum".to_string()));
    assert_eq!(queries[4].params[0].value, Datum::Text("sly_parity".to_string()));
    assert_eq!(queries[4].params[3].value, Datum::Text("(i32) -> i32".to_string()));
}

#[test]
fn failing_file_does_not_abort_the_batch() {
    let files = vec![
        file("a.txt", "first", "txt"),
        file("b.txt", "second", "txt"),
        file("c.txt", "third", "txt"),
        file("d.txt", "fourth", "txt"),
    ];
    let known = files[2].hash.clone();
    let written = std::cell::RefCell::new(Vec::new());
    let report = ingest_batch(
        &files,
        5,
        |f| if f.path == "c.txt" { Some((1, known.clone())) } else { None },
        |commit| {
            let path = match &commit.sync.params[0].value {
                Datum::Text(p) => p.clone(),
                _ => String::new(),
            };
            if path == "b.txt" {
                Err("store is locked".to_string())
            } else {
                written.borrow_mut().push(path);
                Ok(())
            }
        },
    );
    let outcomes: Vec<(String, FileOutcome)> = report.into_iter().map(|r| (r.path, r.outcome)).collect();
    assert_eq!(
        outcomes,
        vec![
            ("a.txt".to_string(), FileOutcome::Written),
            ("b.txt".to_string(), FileOutcome::Failed("store is locked".to_string())),
            ("c.txt".to_string(), FileOutcome::Unchanged),
            ("d.txt".to_string(), FileOutcome::Written),
        ]
    );
    assert_eq!(*written.borrow(), vec!["a.txt".to_string(), "d.txt".to_string()]);
}

#[test]
fn only_the_functions_of_an_impl_become_methods() {
    let code = "struct A; impl A { const N: u8 = 1; fn f(&self) {} type T = u8; fn g() {} }";
    let nodes = parse_rust(code).expect("Parse failed");
    let ids: Vec<&str> = nodes.iter().map(|n| n.id.as_str()).collect();
    assert_eq!(ids, vec!["struct:A", "impl:A", "fn:A:f", "fn:A:g"]);
}
