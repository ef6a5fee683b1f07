//! The ingestion of a batch of files: which of them are read again, and
//! what is written for each.

use crate::knowledge::extractor::{symbols_of, Extractor};
use crate::knowledge::scanner::FileValue;
use crate::memory::requests::{query_views, register_skill, update_sync_status, DatumV, Query,
    QueryV, REGISTER_SKILL, UPDATE_SYNC};
use crate::memory::rows::{add_nodes_event, add_nodes_query, batch_add_nodes, node_views,
    GraphNode, NodeBatch};
use crate::memory::sync::{needs_reindex, should_reindex};
use vstd::prelude::*;

verus! {

/// What is written for one file: the batch of its nodes, unless it has
/// none, and after that the entry of the sync log.
#[derive(Debug, Clone, PartialEq)]
pub struct FileCommit {
    pub batch: Option<NodeBatch>,
    pub sync: Query,
}

/// The value of what the sync log says of a path.
pub open spec fn status_view(status: Option<(i64, String)>) -> Option<(i64, Seq<char>)> {
    match status {
        Some((at, hash)) => Some((at, hash@)),
        None => None,
    }
}

/// What is written for a file with these nodes at the time `now`.
pub fn commit_nodes(nodes: &Vec<GraphNode>, file: &FileValue, now: i64) -> (out: FileCommit)
    ensures
        out.sync@ == (QueryV {
            script: UPDATE_SYNC@,
            params: seq![
                ("path"@, DatumV::Text(file.path@)),
                ("hash"@, DatumV::Text(file.hash@)),
                ("now"@, DatumV::Int(now)),
            ],
            mutable: true,
        }),
        match out.batch {
            None => nodes@.len() == 0,
            Some(batch) => {
                &&& nodes@.len() > 0
                &&& batch.query@ == add_nodes_query(node_views(nodes@))
                &&& batch.event.op@ == "batch_add_nodes"@
                &&& batch.event.data@ == add_nodes_event(node_views(nodes@))
            },
        },
{
    FileCommit {
        batch: batch_add_nodes(nodes),
        sync: update_sync_status(file.path.as_str(), file.hash.as_str(), now),
    }
}

/// Whether a commit is the one that ingests a file at the time `now`: the
/// symbols of the file in one batch with its event, unless the file has
/// none, and the entry of the sync log with the file's hash.
pub open spec fn is_commit_of(commit: FileCommit, file: FileValue, now: i64) -> bool {
    let nodes = symbols_of(file.content@, file.extension@, file.path@);
    &&& commit.sync@ == (QueryV {
        script: UPDATE_SYNC@,
        params: seq![
            ("path"@, DatumV::Text(file.path@)),
            ("hash"@, DatumV::Text(file.hash@)),
            ("now"@, DatumV::Int(now)),
        ],
        mutable: true,
    })
    &&& match commit.batch {
        None => nodes.len() == 0,
        Some(batch) => {
            &&& nodes.len() > 0
            &&& batch.query@ == add_nodes_query(nodes)
            &&& batch.event.op@ == "batch_add_nodes"@
            &&& batch.event.data@ == add_nodes_event(nodes)
        },
    }
}

/// Ingests one scanned file, given what the sync log says of its path:
/// nothing where the log holds the file's hash; else the symbols of the file
/// are written in one batch and the log is brought up to date.
pub fn ingest_file(file: &FileValue, status: &Option<(i64, String)>, now: i64) -> (out: Option<
    FileCommit,
>)
    ensures
        match out {
            None => !needs_reindex(status_view(*status), file.hash@),
            Some(commit) => needs_reindex(status_view(*status), file.hash@) && is_commit_of(
                commit,
                *file,
                now,
            ),
        },
{
    if !should_reindex(status, file.hash.as_str()) {
        return None;
    }
    let nodes = Extractor::extract_symbols(file);
    Some(commit_nodes(&nodes, file, now))
}

/// What became of one file of a batch.
#[derive(Debug, Clone, PartialEq)]
pub enum FileOutcome {
    /// The sync log held the file's hash: nothing was written.
    Unchanged,
    /// The file's commit was written.
    Written,
    /// Writing the file's commit failed, with this error. The file was
    /// passed over.
    Failed(String),
}

/// The report on one file of a batch.
#[derive(Debug, Clone, PartialEq)]
pub struct FileReport {
    pub path: String,
    pub outcome: FileOutcome,
}

/// The outcome that the writer's answer gives a file.
pub open spec fn outcome_of(answer: Result<(), String>) -> FileOutcome {
    match answer {
        Ok(_) => FileOutcome::Written,
        Err(message) => FileOutcome::Failed(message),
    }
}

/// Whether a report tells what happened to a file: given what the look-up
/// said of the file, an unchanged file was passed over, and a changed one
/// had its commit handed to the writer, whose answer is the outcome.
pub open spec fn reports<S: Fn(&FileValue) -> Option<(i64, String)>, W: Fn(&FileCommit) -> Result<
    (),
    String,
>>(report: FileReport, file: FileValue, now: i64, status_of: S, write: W) -> bool {
    &&& report.path@ == file.path@
    &&& exists|status: Option<(i64, String)>| #[trigger]
        status_of.ensures((&file,), status) && if needs_reindex(
            status_view(status),
            file.hash@,
        ) {
            exists|commit: FileCommit, answer: Result<(), String>|
                is_commit_of(commit, file, now) && #[trigger] write.ensures((&commit,), answer)
                    && report.outcome == outcome_of(answer)
        } else {
            report.outcome == FileOutcome::Unchanged
        }
}

/// Ingests a batch of scanned files, one after the other. For each file the
/// sync log is looked up by `status_of`; a file that changed has its commit
/// handed to `write`. A file whose write fails is reported and passed over:
/// the batch goes on with the next file, so that every file of the batch is
/// reported, in order.
pub fn ingest_batch<S, W>(files: &Vec<FileValue>, now: i64, status_of: S, write: W) -> (out: Vec<
    FileReport,
>) where S: Fn(&FileValue) -> Option<(i64, String)>, W: Fn(&FileCommit) -> Result<(), String>
    requires
        forall|file: &FileValue| status_of.requires((file,)),
        forall|commit: &FileCommit| write.requires((commit,)),
    ensures
        out@.len() == files@.len(),
        forall|i: int|
            0 <= i < files@.len() ==> reports(#[trigger] out@[i], files@[i], now, status_of, write),
{
    let mut out: Vec<FileReport> = Vec::new();
    let mut i: usize = 0;
    while i < files.len()
        invariant
            i <= files.len(),
            out@.len() == i,
            forall|file: &FileValue| status_of.requires((file,)),
            forall|commit: &FileCommit| write.requires((commit,)),
            forall|k: int|
                0 <= k < i ==> reports(#[trigger] out@[k], files@[k], now, status_of, write),
        decreases files.len() - i,
    {
        let file = &files[i];
        let status = status_of(file);
        assert(status_of.ensures((file,), status));
        let report = match ingest_file(file, &status, now) {
            None => FileReport { path: file.path.clone(), outcome: FileOutcome::Unchanged },
            Some(commit) => {
                let written = write(&commit);
                assert(write.ensures((&commit,), written));
                let report = match written {
                    Ok(_) => FileReport {
                        path: file.path.clone(),
                        outcome: FileOutcome::Written,
                    },
                    Err(message) => FileReport {
                        path: file.path.clone(),
                        outcome: FileOutcome::Failed(message),
                    },
                };
                assert(report.outcome == outcome_of(written));
                assert(is_commit_of(commit, *file, now));
                report
            },
        };
        assert(reports(report, *file, now, status_of, write));
        out.push(report);
        i += 1;
    }
    out
}

/// A skill that the runtime knows from the start.
pub struct BuiltinSkill {
    pub name: &'static str,
    pub code: &'static str,
    pub description: &'static str,
    pub signature: &'static str,
}

/// The request that registers a built-in skill.
pub open spec fn skill_query(skill: BuiltinSkill) -> QueryV {
    QueryV {
        script: REGISTER_SKILL@,
        params: seq![
            ("name"@, DatumV::Text(skill.name@)),
            ("code"@, DatumV::Text(skill.code@)),
            ("desc"@, DatumV::Text(skill.description@)),
            ("sig"@, DatumV::Text(skill.signature@)),
        ],
        mutable: true,
    }
}

/// The built-in skills: sum, maximum, minimum, product and parity.
pub open spec fn builtin_skills() -> Seq<BuiltinSkill> {
    seq![
        BuiltinSkill {
            name: "sly_sum",
            code: "(module (func (export \"run\") (param i32 i32) (result i32) local.get 0 local.get 1 i32.add))",
            description: "Adds two integers",
            signature: "(i32, i32) -> i32",
        },
        BuiltinSkill {
            name: "sly_max",
            code: "(module (func (export \"run\") (param i32 i32) (result i32) local.get 0 local.get 1 local.get 0 local.get 1 i32.ge_s select))",
            description: "Returns the larger of two integers",
            signature: "(i32, i32) -> i32",
        },
        BuiltinSkill {
            name: "sly_min",
            code: "(module (func (export \"run\") (param i32 i32) (result i32) local.get 0 local.get 1 local.get 0 local.get 1 i32.le_s select))",
            description: "Returns the smaller of two integers",
            signature: "(i32, i32) -> i32",
        },
        BuiltinSkill {
            name: "sly_mul",
            code: "(module (func (export \"run\") (param i32 i32) (result i32) local.get 0 local.get 1 i32.mul))",
            description: "Multiplies two integers",
            signature: "(i32, i32) -> i32",
        },
        BuiltinSkill {
            name: "sly_parity",
            code: "(module (func (export \"run\") (param i32) (result i32) local.get 0 i32.const 2 i32.rem_s i32.eqz))",
            description: "Returns 1 if even, 0 if odd",
            signature: "(i32) -> i32",
        },
    ]
}

/// The requests that register the built-in skills, in order.
pub fn ensure_skills_loaded() -> (out: Vec<Query>)
    ensures
        query_views(out@) == builtin_skills().map_values(|s: BuiltinSkill| skill_query(s)),
{
    let mut out: Vec<Query> = Vec::new();
    out.push(
        register_skill(
            "sly_sum",
            "(module (func (export \"run\") (param i32 i32) (result i32) local.get 0 local.get 1 i32.add))",
            "Adds two integers",
            "(i32, i32) -> i32",
        ),
    );
    out.push(
        register_skill(
            "sly_max",
            "(module (func (export \"run\") (param i32 i32) (result i32) local.get 0 local.get 1 local.get 0 local.get 1 i32.ge_s select))",
            "Returns the larger of two integers",
            "(i32, i32) -> i32",
        ),
    );
    out.push(
        register_skill(
            "sly_min",
            "(module (func (export \"run\") (param i32 i32) (result i32) local.get 0 local.get 1 local.get 0 local.get 1 i32.le_s select))",
            "Returns the smaller of two integers",
            "(i32, i32) -> i32",
        ),
    );
    out.push(
        register_skill(
            "sly_mul",
            "(module (func (export \"run\") (param i32 i32) (result i32) local.get 0 local.get 1 i32.mul))",
            "Multiplies two integers",
            "(i32, i32) -> i32",
        ),
    );
    out.push(
        register_skill(
            "sly_parity",
            "(module (func (export \"run\") (param i32) (result i32) local.get 0 i32.const 2 i32.rem_s i32.eqz))",
            "Returns 1 if even, 0 if odd",
            "(i32) -> i32",
        ),
    );
    assert(query_views(out@) =~= builtin_skills().map_values(|s: BuiltinSkill| skill_query(s)));
    out
}

} // verus!
