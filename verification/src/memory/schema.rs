//! The tables and indexes of the store, and how the store is opened.

use crate::text::{chars_of, contains, contains_text, copy_str};
use vstd::prelude::*;

verus! {

/// How often the opening of a locked store is tried again.
pub const MAX_OPEN_RETRIES: u32 = 10;

/// How long a writer waits before it tries again, in milliseconds.
pub const WRITER_BACKOFF_MS: u64 = 1000;

/// How long a reader waits before it tries again, in milliseconds.
pub const READER_BACKOFF_MS: u64 = 200;

/// What to do after the store could not be opened.
#[derive(Debug, Clone, Copy, PartialEq, Eq)]
pub enum OpenDecision {
    RetryAfter { millis: u64 },
    GiveUp,
}

/// Whether an error of the store says that another process holds its lock.
pub open spec fn is_lock_error(message: Seq<char>) -> bool {
    contains_text(message, "Resource temporarily unavailable"@)
}

/// Decides what follows a failed opening: a locked store is tried again, up
/// to ten times, after a pause; any other failure is final.
pub fn open_decision(read_only: bool, retries: u32, message: &str) -> (out: OpenDecision)
    ensures
        out == if retries < MAX_OPEN_RETRIES && is_lock_error(message@) {
            OpenDecision::RetryAfter {
                millis: if read_only {
                    READER_BACKOFF_MS
                } else {
                    WRITER_BACKOFF_MS
                },
            }
        } else {
            OpenDecision::GiveUp
        },
{
    if retries < MAX_OPEN_RETRIES && contains(
        &chars_of(message),
        &chars_of("Resource temporarily unavailable"),
    ) {
        OpenDecision::RetryAfter {
            millis: if read_only {
                READER_BACKOFF_MS
            } else {
                WRITER_BACKOFF_MS
            },
        }
    } else {
        OpenDecision::GiveUp
    }
}

/// Whether an error of a schema script only says that what it creates is
/// there already.
pub open spec fn is_benign(message: Seq<char>) -> bool {
    ||| contains_text(message, "conflicts with an existing one"@)
    ||| contains_text(message, "already exists"@)
    ||| contains_text(message, "non-existent field"@)
}

/// Whether an error of a schema script can be passed over in silence.
pub fn is_benign_schema_error(message: &str) -> (out: bool)
    ensures
        out == is_benign(message@),
{
    let m = chars_of(message);
    contains(&m, &chars_of("conflicts with an existing one")) || contains(
        &m,
        &chars_of("already exists"),
    ) || contains(&m, &chars_of("non-existent field"))
}

pub const CREATE_CACHE: &'static str =
    "\n            :create cache {\n                id: String\n                =>\n                query: String,\n                response: String,\n                embedding: <F32; 384>\n            }\n        ";

pub const CREATE_CACHE_INDEX: &'static str =
    "\n            ::hnsw create cache:idx {\n                dim: 384,\n                dtype: F32,\n                fields: [embedding],\n                distance: Cosine,\n                m: 50,\n                ef_construction: 200\n            }\n        ";

pub const CREATE_NODES: &'static str =
    "\n            :create nodes {\n                id: String\n                =>\n                content: String,\n                type: String,\n                path: String,\n                embedding: <F32; 384>\n            }\n        ";

pub const CREATE_NODES_INDEX: &'static str =
    "\n            ::hnsw create nodes:idx {\n                dim: 384,\n                dtype: F32,\n                fields: [embedding],\n                distance: Cosine,\n                m: 50,\n                ef_construction: 200\n            }\n        ";

pub const CREATE_EDGES: &'static str =
    "\n            :create edges {\n                from: String,\n                to: String\n                =>\n                rel_type: String\n            }\n        ";

pub const CREATE_LIBRARY: &'static str =
    "\n            :create library {\n                id: String\n                =>\n                name: String,\n                version: String,\n                content: String,\n                language: String,\n                chunk_type: String,\n                embedding: <F32; 384>\n            }\n        ";

pub const CREATE_LIBRARY_INDEX: &'static str =
    "\n            ::hnsw create library:idx {\n                dim: 384,\n                dtype: F32,\n                fields: [embedding],\n                distance: Cosine,\n                m: 50,\n                ef_construction: 200\n            }\n        ";

pub const CREATE_KV_CACHE: &'static str =
    "\n            :create kv_cache {\n                hash: String\n                =>\n                cache_id: String,\n                created_at: Int\n            }\n        ";

pub const CREATE_SYNC_LOG: &'static str =
    "\n            :create sync_log {\n                path: String\n                =>\n                last_ingested: Float,\n                content_hash: String\n            }\n        ";

pub const CREATE_EVENT_LOG: &'static str =
    "\n            :create event_log {\n                id: String\n                =>\n                op: String,\n                data: Json,\n                timestamp: Int,\n                version: Int\n            }\n        ";

pub const CREATE_SKILLS: &'static str =
    "\n            :create skills {\n                name: String\n                =>\n                code: String,\n                description: String,\n                signature: String\n            }\n        ";

pub const CREATE_SESSIONS: &'static str =
    "\n            :create sessions {\n                id: String\n                =>\n                status: String,\n                depth: Int,\n                input: String,\n                created_at: Int\n            }\n        ";

pub const CREATE_SESSION_MESSAGES: &'static str =
    "\n            :create session_messages {\n                session_id: String,\n                msg_index: Int\n                =>\n                content: String\n            }\n        ";

pub const CHECK_NODES: &'static str = "?[id, embedding] := *nodes{id, embedding} :limit 1";

pub const CHECK_LIBRARY: &'static str = "?[id, embedding] := *library{id, embedding} :limit 1";

pub const MIGRATE_NODES: &'static str =
    "\n                ?[id, content, type, path, embedding] := *nodes_old{id, content, type, path}, embedding = $empty_vec\n                :put nodes { id => content, type, path, embedding }\n            ";

pub const MIGRATE_LIBRARY: &'static str =
    "\n                ?[id, name, version, content, language, chunk_type, embedding] := *library_old{id, name, version, content, language, chunk_type}, embedding = $empty_vec\n                :put library { id => name, version, content, language, chunk_type, embedding }\n            ";

/// One step of bringing the store's schema up.
#[derive(Debug, Clone, PartialEq, Eq)]
pub enum SchemaStep {
    /// Run the script that creates what `name` says; an error is passed
    /// over, in silence where it is benign.
    Create { name: String, script: String },
    /// Run the probe; where it fails, the table lacks its embedding column
    /// and is rebuilt by the migration of that table.
    Probe { table: String, script: String },
}

/// The mathematical value of a [`SchemaStep`].
pub enum SchemaStepV {
    Create { name: Seq<char>, script: Seq<char> },
    Probe { table: Seq<char>, script: Seq<char> },
}

impl View for SchemaStep {
    type V = SchemaStepV;

    open spec fn view(&self) -> SchemaStepV {
        match self {
            SchemaStep::Create { name, script } => SchemaStepV::Create {
                name: name@,
                script: script@,
            },
            SchemaStep::Probe { table, script } => SchemaStepV::Probe {
                table: table@,
                script: script@,
            },
        }
    }
}

/// The values of a list of steps.
pub open spec fn step_views(steps: Seq<SchemaStep>) -> Seq<SchemaStepV> {
    steps.map_values(|s: SchemaStep| s@)
}

/// The schema: every table with its index, in the order in which they are
/// created. The two tables that once had no embedding column are probed
/// right after they are created.
pub open spec fn schema() -> Seq<SchemaStepV> {
    seq![
        SchemaStepV::Create { name: "cache"@, script: CREATE_CACHE@ },
        SchemaStepV::Create { name: "cache:idx"@, script: CREATE_CACHE_INDEX@ },
        SchemaStepV::Create { name: "nodes"@, script: CREATE_NODES@ },
        SchemaStepV::Probe { table: "nodes"@, script: CHECK_NODES@ },
        SchemaStepV::Create { name: "nodes:idx"@, script: CREATE_NODES_INDEX@ },
        SchemaStepV::Create { name: "edges"@, script: CREATE_EDGES@ },
        SchemaStepV::Create { name: "library"@, script: CREATE_LIBRARY@ },
        SchemaStepV::Probe { table: "library"@, script: CHECK_LIBRARY@ },
        SchemaStepV::Create { name: "kv_cache"@, script: CREATE_KV_CACHE@ },
        SchemaStepV::Create { name: "sync_log"@, script: CREATE_SYNC_LOG@ },
        SchemaStepV::Create { name: "event_log"@, script: CREATE_EVENT_LOG@ },
        SchemaStepV::Create { name: "skills"@, script: CREATE_SKILLS@ },
        SchemaStepV::Create { name: "library:idx"@, script: CREATE_LIBRARY_INDEX@ },
        SchemaStepV::Create { name: "sessions"@, script: CREATE_SESSIONS@ },
        SchemaStepV::Create { name: "session_messages"@, script: CREATE_SESSION_MESSAGES@ },
    ]
}

fn create(name: &str, script: &str) -> (out: SchemaStep)
    ensures
        out@ == (SchemaStepV::Create { name: name@, script: script@ }),
{
    SchemaStep::Create { name: copy_str(name), script: copy_str(script) }
}

fn probe(table: &str, script: &str) -> (out: SchemaStep)
    ensures
        out@ == (SchemaStepV::Probe { table: table@, script: script@ }),
{
    SchemaStep::Probe { table: copy_str(table), script: copy_str(script) }
}

/// The steps that bring the schema up, in order.
pub fn initialize_schema() -> (out: Vec<SchemaStep>)
    ensures
        step_views(out@) == schema(),
{
    let mut out: Vec<SchemaStep> = Vec::new();
    out.push(create("cache", CREATE_CACHE));
    out.push(create("cache:idx", CREATE_CACHE_INDEX));
    out.push(create("nodes", CREATE_NODES));
    out.push(probe("nodes", CHECK_NODES));
    out.push(create("nodes:idx", CREATE_NODES_INDEX));
    out.push(create("edges", CREATE_EDGES));
    out.push(create("library", CREATE_LIBRARY));
    out.push(probe("library", CHECK_LIBRARY));
    out.push(create("kv_cache", CREATE_KV_CACHE));
    out.push(create("sync_log", CREATE_SYNC_LOG));
    out.push(create("event_log", CREATE_EVENT_LOG));
    out.push(create("skills", CREATE_SKILLS));
    out.push(create("library:idx", CREATE_LIBRARY_INDEX));
    out.push(create("sessions", CREATE_SESSIONS));
    out.push(create("session_messages", CREATE_SESSION_MESSAGES));
    assert(step_views(out@) =~= schema());
    out
}

/// One script of a migration, and whether the migration goes on when the
/// script fails without a word or with a warning.
#[derive(Debug, Clone, PartialEq, Eq)]
pub struct MigrationStep {
    pub script: String,
    /// Whether the script binds the zero vector to `empty_vec`.
    pub binds_zero_vector: bool,
    /// Whether a failure of the script is worth a warning.
    pub warn_on_error: bool,
}

/// The mathematical value of a [`MigrationStep`].
pub struct MigrationStepV {
    pub script: Seq<char>,
    pub binds_zero_vector: bool,
    pub warn_on_error: bool,
}

impl View for MigrationStep {
    type V = MigrationStepV;

    open spec fn view(&self) -> MigrationStepV {
        MigrationStepV {
            script: self.script@,
            binds_zero_vector: self.binds_zero_vector,
            warn_on_error: self.warn_on_error,
        }
    }
}

/// The values of a list of migration steps.
pub open spec fn migration_views(steps: Seq<MigrationStep>) -> Seq<MigrationStepV> {
    steps.map_values(|s: MigrationStep| s@)
}

/// The migration of a table that lacks its embedding column: what is left
/// of an earlier attempt is removed, the table is set aside, created anew,
/// filled from the old rows with the zero vector as embedding, and the old
/// table is removed. Every step is run whatever the one before did.
pub open spec fn migration_of(
    table: Seq<char>,
    create_script: Seq<char>,
    migrate_script: Seq<char>,
) -> Seq<MigrationStepV> {
    seq![
        MigrationStepV {
            script: "::remove "@ + table + "_old"@,
            binds_zero_vector: false,
            warn_on_error: false,
        },
        MigrationStepV {
            script: "::rename "@ + table + " "@ + table + "_old"@,
            binds_zero_vector: false,
            warn_on_error: true,
        },
        MigrationStepV {
            script: "::remove "@ + table,
            binds_zero_vector: false,
            warn_on_error: false,
        },
        MigrationStepV { script: create_script, binds_zero_vector: false, warn_on_error: true },
        MigrationStepV { script: migrate_script, binds_zero_vector: true, warn_on_error: true },
        MigrationStepV {
            script: "::remove "@ + table + "_old"@,
            binds_zero_vector: false,
            warn_on_error: false,
        },
    ]
}

/// The migration of a table, by its name: that of `nodes` or of `library`;
/// no other table has one.
pub open spec fn migration(table: Seq<char>) -> Option<Seq<MigrationStepV>> {
    if table == "nodes"@ {
        Some(migration_of("nodes"@, CREATE_NODES@, MIGRATE_NODES@))
    } else if table == "library"@ {
        Some(migration_of("library"@, CREATE_LIBRARY@, MIGRATE_LIBRARY@))
    } else {
        None
    }
}

fn step(a: &str, b: &str, c: &str, d: &str, warn_on_error: bool) -> (out: MigrationStep)
    ensures
        out@ == (MigrationStepV {
            script: a@ + b@ + c@ + d@,
            binds_zero_vector: false,
            warn_on_error,
        }),
{
    let mut buf = chars_of(a);
    crate::text::push_str(&mut buf, b);
    crate::text::push_str(&mut buf, c);
    crate::text::push_str(&mut buf, d);
    MigrationStep {
        script: crate::text::string_of(&buf),
        binds_zero_vector: false,
        warn_on_error,
    }
}

fn migration_steps(table: &str, create_script: &str, migrate_script: &str) -> (out: Vec<
    MigrationStep,
>)
    ensures
        migration_views(out@) == migration_of(table@, create_script@, migrate_script@),
{
    let mut out: Vec<MigrationStep> = Vec::new();
    proof {
        reveal_strlit("");
    }
    let s0 = step("::remove ", table, "_old", "", false);
    assert(s0@.script =~= "::remove "@ + table@ + "_old"@);
    let s1 = step("::rename ", table, " ", table, true);
    let mut renamed = chars_of(s1.script.as_str());
    crate::text::push_str(&mut renamed, "_old");
    let s1 = MigrationStep {
        script: crate::text::string_of(&renamed),
        binds_zero_vector: false,
        warn_on_error: true,
    };
    assert(s1@.script =~= "::rename "@ + table@ + " "@ + table@ + "_old"@);
    let s2 = step("::remove ", table, "", "", false);
    assert(s2@.script =~= "::remove "@ + table@);
    let s5 = step("::remove ", table, "_old", "", false);
    assert(s5@.script =~= "::remove "@ + table@ + "_old"@);
    out.push(s0);
    out.push(s1);
    out.push(s2);
    out.push(
        MigrationStep {
            script: copy_str(create_script),
            binds_zero_vector: false,
            warn_on_error: true,
        },
    );
    out.push(
        MigrationStep {
            script: copy_str(migrate_script),
            binds_zero_vector: true,
            warn_on_error: true,
        },
    );
    out.push(s5);
    assert(migration_views(out@) =~= migration_of(table@, create_script@, migrate_script@));
    out
}

/// The steps that rebuild a table whose probe failed.
pub fn migrate(table: &str) -> (out: Option<Vec<MigrationStep>>)
    ensures
        match out {
            Some(steps) => migration(table@) == Some(migration_views(steps@)),
            None => migration(table@) is None,
        },
{
    if crate::text::str_eq(table, "nodes") {
        Some(migration_steps("nodes", CREATE_NODES, MIGRATE_NODES))
    } else if crate::text::str_eq(table, "library") {
        Some(migration_steps("library", CREATE_LIBRARY, MIGRATE_LIBRARY))
    } else {
        None
    }
}

} // verus!
