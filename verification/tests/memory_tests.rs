use sly::bus::EventDraft;
use sly::json::{Json, Member};
use sly::memory::events::{append_query, current_time, fact_file_name, fact_text, queue_fact,
    EventLog, FactError, EVENT_VERSION};
use sly::memory::requests::{add_session_message, check_cache, check_sync_status, count_nodes,
    create_session, find_related, get_kv_cache, get_neighborhood, get_session,
    get_session_messages, get_skill, register_skill, search_library, set_kv_cache, store_cache,
    update_session, update_sync_status, Datum, Param, CHECK_CACHE, GET_SESSION_MESSAGES};
use sly::memory::rows::{batch_add_nodes, column_texts, decode_session, decode_sync_status,
    first_text, Cell, GraphNode};
use sly::memory::schema::{initialize_schema, is_benign_schema_error, migrate, open_decision,
    OpenDecision, SchemaStep};
use sly::memory::sync::should_reindex;
use sly::session::{AgentSession, SessionStatus};

fn param(name: &str, value: Datum) -> Param {
    Param { name: name.to_string(), value }
}

fn text(s: &str) -> Datum {
    Datum::Text(s.to_string())
}

#[test]
fn cache_lookup_embeds_the_query() {
    let q = check_cache("Capital of France?");
    assert_eq!(q.script, CHECK_CACHE);
    assert!(q.script.contains("k: 1"));
    assert!(q.script.contains("dist < 0.1"));
    assert_eq!(q.params, vec![param("query_vec", Datum::EmbeddingOf("Capital of France?".to_string()))]);
    assert!(!q.mutable);
    let s = store_cache("id-1", "Capital of France?", "Paris");
    assert!(s.mutable);
    assert_eq!(
        s.params,
        vec![
            param("id", text("id-1")),
            param("query", text("Capital of France?")),
            param("response", text("Paris")),
            param("embedding", Datum::EmbeddingOf("Capital of France?".to_string())),
        ]
    );
}

#[test]
fn searches_carry_their_limits() {
    let q = find_related("q", 7);
    assert!(q.script.contains("k: 7,"));
    assert!(q.script.contains(":sort dist"));
    assert!(q.script.contains("ef: 100"));
    let l = search_library("q", 5);
    assert!(l.script.contains("k: 10,"));
    assert!(l.script.contains(":limit 5\n"));
    assert!(l.script.contains("if type == \"definition\" { 0.8 } else { 1.0 }"));
    let big = search_library("q", usize::MAX);
    assert!(big.script.contains(&format!("k: {},", usize::MAX)));
}

#[test]
fn key_value_and_sync_requests() {
    assert_eq!(get_kv_cache("h").params, vec![param("hash", text("h"))]);
    assert_eq!(
        set_kv_cache("h", "c", 5).params,
        vec![param("hash", text("h")), param("cache_id", text("c")), param("now", Datum::Int(5))]
    );
    assert_eq!(check_sync_status("p").params, vec![param("path", text("p"))]);
    let u = update_sync_status("p", "abc", 9);
    assert!(u.mutable);
    assert_eq!(
        u.params,
        vec![param("path", text("p")), param("hash", text("abc")), param("now", Datum::Int(9))]
    );
    assert_eq!(get_neighborhood("src/a.rs").params, vec![param("path", text("src/a.rs"))]);
    assert_eq!(get_skill("s").params, vec![param("name", text("s"))]);
    assert_eq!(register_skill("n", "c", "d", "s").params.len(), 4);
    assert!(count_nodes().params.is_empty());
}

#[test]
fn session_is_stored_one_row_per_message() {
    let s = AgentSession {
        id: "S".to_string(),
        messages: vec!["first".to_string(), "second".to_string()],
        depth: 4,
        status: SessionStatus::Error("x".to_string()),
    };
    let created = create_session(&s, 100);
    assert_eq!(created.len(), 3);
    assert_eq!(
        created[0].params,
        vec![
            param("id", text("S")),
            param("status", text("Error(\"x\")")),
            param("depth", Datum::Int(4)),
            param("input", text("first")),
            param("now", Datum::Int(100)),
        ]
    );
    assert_eq!(created[1], add_session_message("S", 0, "first"));
    assert_eq!(created[2], add_session_message("S", 1, "second"));
    assert_eq!(
        created[2].params,
        vec![param("session_id", text("S")), param("index", Datum::Int(1)), param("content", text("second"))]
    );
    let updated = update_session(&s);
    assert_eq!(updated.len(), 3);
    assert_eq!(
        updated[0].params,
        vec![param("id", text("S")), param("status", text("Error(\"x\")")), param("depth", Datum::Int(4))]
    );
    assert_eq!(get_session("S").params, vec![param("id", text("S"))]);
    assert_eq!(get_session_messages("S").script, GET_SESSION_MESSAGES);
}

fn t(s: &str) -> Cell {
    Cell::Text(s.to_string())
}

fn n(s: &str) -> Cell {
    Cell::Number(s.to_string())
}

#[test]
fn rows_are_read_leniently() {
    assert_eq!(first_text(&vec![]), None);
    assert_eq!(first_text(&vec![vec![n("1")]]), None);
    assert_eq!(first_text(&vec![vec![t("Paris")], vec![t("Rome")]]), Some("Paris".to_string()));
    assert_eq!(
        column_texts(&vec![vec![t("a")], vec![], vec![Cell::Other], vec![t("b"), t("c")]]),
        vec!["a".to_string(), "b".to_string()]
    );
}

#[test]
fn sync_status_needs_a_hash() {
    assert_eq!(decode_sync_status(&vec![]), None);
    assert_eq!(decode_sync_status(&vec![vec![n("17"), t("")]]), None);
    assert_eq!(decode_sync_status(&vec![vec![n("17"), t("abc")]]), Some((17, "abc".to_string())));
    assert_eq!(decode_sync_status(&vec![vec![n("17.5"), t("abc")]]), Some((0, "abc".to_string())));
    assert_eq!(decode_sync_status(&vec![vec![t("x"), t("abc")]]), Some((0, "abc".to_string())));
    assert_eq!(decode_sync_status(&vec![vec![n("-3")]]), None);
}

#[test]
fn session_is_reassembled_in_order() {
    let rows = vec![vec![t("Error(\"boom\")"), n("2"), t("first")]];
    let messages = vec![vec![t("first")], vec![t("second")]];
    let s = decode_session("S", &rows, &messages).expect("session");
    assert_eq!(s.id, "S");
    assert_eq!(s.depth, 2);
    assert_eq!(s.status, SessionStatus::Error("boom".to_string()));
    assert_eq!(s.messages, vec!["first".to_string(), "second".to_string()]);
    assert!(decode_session("S", &vec![], &messages).is_none());
    let odd = decode_session("S", &vec![vec![Cell::Other, n("-1")]], &vec![]).expect("session");
    assert_eq!(odd.status, SessionStatus::Idle);
    assert_eq!(odd.depth, 0);
}

#[test]
fn stored_session_reads_back() {
    let s = AgentSession {
        id: "S".to_string(),
        messages: vec!["a".to_string(), "b".to_string()],
        depth: 3,
        status: SessionStatus::Completed,
    };
    let q = update_session(&s);
    let label = match &q[0].params[1].value {
        Datum::Text(l) => l.clone(),
        _ => panic!("label"),
    };
    let rows = vec![vec![Cell::Text(label), n("3"), t("a")]];
    let messages = vec![vec![t("a")], vec![t("b")]];
    let back = decode_session("S", &rows, &messages).expect("session");
    assert_eq!(back.messages, s.messages);
    assert_eq!(back.depth, s.depth);
    assert_eq!(back.status, s.status);
}

fn node(id: &str, path: &str, edges: Vec<&str>) -> GraphNode {
    GraphNode {
        id: id.to_string(),
        content: format!("content of {}", id),
        node_type: "fn".to_string(),
        path: path.to_string(),
        edges: edges.into_iter().map(|e| e.to_string()).collect(),
    }
}

#[test]
fn batch_of_nodes_is_one_request_and_one_event() {
    assert!(batch_add_nodes(&vec![]).is_none());
    let nodes = vec![node("fn:a", "a.rs", vec!["struct:B", "fn:c"]), node("fn:d", "d.rs", vec![])];
    let batch = batch_add_nodes(&nodes).expect("batch");
    assert!(batch.query.mutable);
    assert_eq!(
        batch.query.params,
        vec![
            param(
                "nodes",
                Datum::EmbeddedRows {
                    rows: vec![
                        vec!["fn:a", "content of fn:a", "fn", "a.rs"].into_iter().map(String::from).collect(),
                        vec!["fn:d", "content of fn:d", "fn", "d.rs"].into_iter().map(String::from).collect(),
                    ],
                    source: 1,
                }
            ),
            param(
                "edges",
                Datum::Rows(vec![
                    vec!["fn:a", "struct:B", "related"].into_iter().map(String::from).collect(),
                    vec!["fn:a", "fn:c", "related"].into_iter().map(String::from).collect(),
                ])
            ),
        ]
    );
    assert_eq!(
        batch.event,
        EventDraft {
            op: "batch_add_nodes".to_string(),
            data: Json::Object(vec![
                Member { key: "count".to_string(), value: Json::Number("2".to_string()) },
                Member {
                    key: "paths".to_string(),
                    value: Json::Array(vec![Json::Text("a.rs".to_string()), Json::Text("d.rs".to_string())]),
                },
            ]),
        }
    );
}

#[test]
fn event_log_is_strictly_increasing() {
    let mut log = EventLog::new();
    let draft = |op: &str| EventDraft { op: op.to_string(), data: Json::Null };
    let a = log.stamp("1".to_string(), draft("a"), 1000);
    let b = log.stamp("2".to_string(), draft("b"), 1000);
    let c = log.stamp("3".to_string(), draft("c"), 900);
    let d = log.stamp("4".to_string(), draft("d"), 5000);
    assert_eq!((a.timestamp_ms, b.timestamp_ms, c.timestamp_ms, d.timestamp_ms), (1000, 1001, 1002, 5000));
    assert_eq!(a.version, EVENT_VERSION);
    assert_eq!(b.op, "b");
    let first = log.record_event("PING", Json::Null);
    let second = log.record_event("PING", Json::Null);
    assert!(second.timestamp_ms > first.timestamp_ms);
    assert_ne!(first.id, second.id);
    assert_eq!(first.id.len(), 36);
    assert!(current_time() > 1_600_000_000);
    let q = append_query(&a);
    assert!(q.mutable);
    assert_eq!(
        q.params,
        vec![
            param("id", text("1")),
            param("op", text("a")),
            param("data", Datum::Json(Json::Null)),
            param("timestamp", Datum::Int(1000)),
            param("version", Datum::Int(1)),
        ]
    );
}

#[test]
fn reindex_only_when_the_hash_differs() {
    assert!(should_reindex(&None, "h"));
    assert!(!should_reindex(&Some((1, "h".to_string())), "h"));
    assert!(should_reindex(&Some((1, "h".to_string())), "g"));
}

#[test]
fn schema_has_every_table_and_index() {
    let steps = initialize_schema();
    let names: Vec<String> = steps
        .iter()
        .map(|s| match s {
            SchemaStep::Create { name, .. } => name.clone(),
            SchemaStep::Probe { table, .. } => format!("probe {}", table),
        })
        .collect();
    assert_eq!(
        names,
        vec![
            "cache", "cache:idx", "nodes", "probe nodes", "nodes:idx", "edges", "library",
            "probe library", "kv_cache", "sync_log", "event_log", "skills", "library:idx",
            "sessions", "session_messages"
        ]
    );
    for s in &steps {
        if let SchemaStep::Create { name, script } = s {
            if name.ends_with(":idx") {
                assert!(script.contains("dim: 384"));
                assert!(script.contains("distance: Cosine"));
                assert!(script.contains("m: 50"));
                assert!(script.contains("ef_construction: 200"));
            }
        }
    }
}

#[test]
fn migration_rebuilds_the_table() {
    let steps = migrate("nodes").expect("nodes has a migration");
    let scripts: Vec<&str> = steps.iter().map(|s| s.script.as_str()).collect();
    assert_eq!(scripts[0], "::remove nodes_old");
    assert_eq!(scripts[1], "::rename nodes nodes_old");
    assert_eq!(scripts[2], "::remove nodes");
    assert!(scripts[3].contains(":create nodes"));
    assert!(scripts[4].contains("*nodes_old{id, content, type, path}"));
    assert_eq!(scripts[5], "::remove nodes_old");
    assert!(steps[4].binds_zero_vector);
    assert!(!steps[0].warn_on_error);
    assert!(steps[1].warn_on_error);
    assert!(migrate("library").is_some());
    assert!(migrate("edges").is_none());
}

#[test]
fn locked_store_is_retried_ten_times() {
    let locked = "IO error: Resource temporarily unavailable";
    assert_eq!(open_decision(false, 0, locked), OpenDecision::RetryAfter { millis: 1000 });
    assert_eq!(open_decision(true, 9, locked), OpenDecision::RetryAfter { millis: 200 });
    assert_eq!(open_decision(false, 10, locked), OpenDecision::GiveUp);
    assert_eq!(open_decision(false, 0, "corrupt"), OpenDecision::GiveUp);
    assert!(is_benign_schema_error("relation conflicts with an existing one"));
    assert!(is_benign_schema_error("index already exists"));
    assert!(is_benign_schema_error("non-existent field x"));
    assert!(!is_benign_schema_error("syntax error"));
}

#[test]
fn facts_are_queued_as_json_files() {
    assert_eq!(
        fact_text("PING", "{\"n\": 1}", 1700000000123),
        Ok("{\"data\":{\"n\":1},\"op\":\"PING\",\"ts\":1700000000123}".to_string())
    );
    assert_eq!(fact_text("PING", "{oops", 1), Err(FactError::InvalidJson));
    assert_eq!(fact_file_name("abc"), "abc.json");
    let f = queue_fact("DIRECTIVE", "[1, 2]").expect("queued");
    assert_eq!(f.name.len(), 41);
    assert!(f.text.ends_with('}'));
    let g = queue_fact("DIRECTIVE", "[1, 2]").expect("queued");
    assert_ne!(f.name, g.name);
    assert!(f.name.ends_with(".json"));
    assert!(f.text.starts_with("{\"data\":[1,2],\"op\":\"DIRECTIVE\",\"ts\":"));
    assert_eq!(queue_fact("x", "").err(), Some(FactError::InvalidJson));
}
