//! Differential ingestion: a file is read again only when its content has
//! changed since it was last ingested.

use crate::text::{str_eq};
use vstd::prelude::*;

verus! {

/// Whether a file with this hash has to be ingested, given what the sync log
/// says of its path: not if the log holds the same hash.
pub open spec fn needs_reindex(stored: Option<(i64, Seq<char>)>, hash: Seq<char>) -> bool {
    match stored {
        Some((_, old_hash)) => old_hash != hash,
        None => true,
    }
}

/// Whether a file with this hash has to be ingested.
pub fn should_reindex(stored: &Option<(i64, String)>, hash: &str) -> (out: bool)
    ensures
        out == needs_reindex(
            match stored {
                Some((at, h)) => Some((*at, h@)),
                None => None,
            },
            hash@,
        ),
{
    match stored {
        Some((_, old_hash)) => !str_eq(old_hash.as_str(), hash),
        None => true,
    }
}

/// The sync log: for each path, when it was last ingested and the hash of
/// the content then.
pub type SyncLog = Map<Seq<char>, (i64, Seq<char>)>;

/// The log after the content with this hash was ingested from a path.
pub open spec fn synced(log: SyncLog, path: Seq<char>, hash: Seq<char>, now: i64) -> SyncLog {
    log.insert(path, (now, hash))
}

/// What a lookup in the log gives for a path: its entry, unless the path has
/// none or the hash of the entry is empty.
pub open spec fn status_in(log: SyncLog, path: Seq<char>) -> Option<(i64, Seq<char>)> {
    if log.contains_key(path) && log[path].1.len() > 0 {
        Some(log[path])
    } else {
        None
    }
}

/// Ingesting is idempotent: once a path is recorded with a hash, and until
/// the log changes again, a file at that path with that hash is not
/// ingested again. A hash is never empty.
pub proof fn law_synced_file_is_skipped(log: SyncLog, path: Seq<char>, hash: Seq<char>, now: i64)
    requires
        hash.len() > 0,
    ensures
        !needs_reindex(status_in(synced(log, path, hash, now), path), hash),
{
}

/// A recording for one path leaves what the log says of every other path.
pub proof fn law_sync_is_per_path(
    log: SyncLog,
    path: Seq<char>,
    hash: Seq<char>,
    now: i64,
    other: Seq<char>,
)
    requires
        other != path,
    ensures
        status_in(synced(log, path, hash, now), other) == status_in(log, other),
{
}

/// One file of a batch: its path and the hash of its content.
pub struct FileMark {
    pub path: Seq<char>,
    pub hash: Seq<char>,
}

/// The files of a batch, from index `i` on, that have to be ingested given
/// the log as it stands before the batch.
pub open spec fn candidates_from(log: SyncLog, files: Seq<FileMark>, i: int) -> Seq<FileMark>
    decreases files.len() - i,
{
    if i < 0 || i >= files.len() {
        seq![]
    } else if needs_reindex(status_in(log, files[i].path), files[i].hash) {
        seq![files[i]] + candidates_from(log, files, i + 1)
    } else {
        candidates_from(log, files, i + 1)
    }
}

/// The log after the files from index `i` on were committed at the time
/// `now`.
pub open spec fn committed_from(log: SyncLog, files: Seq<FileMark>, i: int, now: i64) -> SyncLog
    decreases files.len() - i,
{
    if i < 0 || i >= files.len() {
        log
    } else {
        committed_from(synced(log, files[i].path, files[i].hash, now), files, i + 1, now)
    }
}

/// The log after one pass over a batch: the candidates are committed, in
/// order.
pub open spec fn after_pass(log: SyncLog, files: Seq<FileMark>, now: i64) -> SyncLog {
    committed_from(log, candidates_from(log, files, 0), 0, now)
}

/// Whether no two files of a batch have the same path, and no hash is
/// empty.
pub open spec fn is_batch(files: Seq<FileMark>) -> bool {
    &&& forall|i: int, j: int|
        0 <= i < j < files.len() ==> (#[trigger] files[i]).path != (#[trigger] files[j]).path
    &&& forall|i: int| 0 <= i < files.len() ==> (#[trigger] files[i]).hash.len() > 0
}

proof fn lemma_candidates_members(log: SyncLog, files: Seq<FileMark>, i: int, k: int)
    requires
        0 <= i,
        0 <= k < candidates_from(log, files, i).len(),
    ensures
        exists|j: int| i <= j < files.len() && files[j] == candidates_from(log, files, i)[k],
    decreases files.len() - i,
{
    if i >= files.len() {
    } else if needs_reindex(status_in(log, files[i].path), files[i].hash) {
        if k == 0 {
            assert(files[i] == candidates_from(log, files, i)[k]);
        } else {
            lemma_candidates_members(log, files, i + 1, k - 1);
            let j = choose|j: int|
                i + 1 <= j < files.len() && files[j] == candidates_from(log, files, i + 1)[k
                    - 1];
            assert(files[j] == candidates_from(log, files, i)[k]);
        }
    } else {
        lemma_candidates_members(log, files, i + 1, k);
        let j = choose|j: int|
            i + 1 <= j < files.len() && files[j] == candidates_from(log, files, i + 1)[k];
        assert(files[j] == candidates_from(log, files, i)[k]);
    }
}

proof fn lemma_committed_keeps(
    log: SyncLog,
    files: Seq<FileMark>,
    i: int,
    now: i64,
    path: Seq<char>,
)
    requires
        0 <= i,
        forall|j: int| i <= j < files.len() ==> (#[trigger] files[j]).path != path,
    ensures
        status_in(committed_from(log, files, i, now), path) == status_in(log, path),
    decreases files.len() - i,
{
    if i < files.len() {
        lemma_committed_keeps(
            synced(log, files[i].path, files[i].hash, now),
            files,
            i + 1,
            now,
            path,
        );
    }
}

proof fn lemma_committed_records(log: SyncLog, files: Seq<FileMark>, i: int, now: i64, k: int)
    requires
        0 <= i <= k < files.len(),
        files[k].hash.len() > 0,
        forall|a: int, b: int|
            0 <= a < b < files.len() ==> (#[trigger] files[a]).path != (#[trigger] files[b]).path,
    ensures
        status_in(committed_from(log, files, i, now), files[k].path) == Some(
            (now, files[k].hash),
        ),
    decreases files.len() - i,
{
    let next = synced(log, files[i].path, files[i].hash, now);
    if i == k {
        lemma_committed_keeps(next, files, i + 1, now, files[k].path);
    } else {
        lemma_committed_records(next, files, i + 1, now, k);
    }
}

proof fn lemma_candidates_distinct(log: SyncLog, files: Seq<FileMark>, i: int)
    requires
        0 <= i,
        is_batch(files),
    ensures
        is_batch(candidates_from(log, files, i)),
        forall|k: int|
            0 <= k < candidates_from(log, files, i).len() ==> exists|j: int|
                i <= j < files.len() && files[j] == (#[trigger] candidates_from(log, files, i)[k]),
    decreases files.len() - i,
{
    let c = candidates_from(log, files, i);
    assert forall|k: int| 0 <= k < c.len() implies exists|j: int|
        i <= j < files.len() && files[j] == (#[trigger] c[k]) by {
        lemma_candidates_members(log, files, i, k);
    }
    if i < files.len() {
        lemma_candidates_distinct(log, files, i + 1);
        let rest = candidates_from(log, files, i + 1);
        if needs_reindex(status_in(log, files[i].path), files[i].hash) {
            assert forall|a: int, b: int| 0 <= a < b < c.len() implies (#[trigger] c[a]).path != (
            #[trigger] c[b]).path by {
                if a == 0 {
                    lemma_candidates_members(log, files, i + 1, b - 1);
                } else {
                    assert(c[a] == rest[a - 1]);
                    assert(c[b] == rest[b - 1]);
                }
            }
            assert forall|k: int| 0 <= k < c.len() implies (#[trigger] c[k]).hash.len() > 0 by {
                if k > 0 {
                    assert(c[k] == rest[k - 1]);
                }
            }
        }
    }
}

proof fn lemma_no_candidates(log: SyncLog, done: SyncLog, files: Seq<FileMark>, i: int)
    requires
        0 <= i,
        forall|j: int|
            i <= j < files.len() ==> !needs_reindex(
                status_in(done, (#[trigger] files[j]).path),
                files[j].hash,
            ),
    ensures
        candidates_from(done, files, i) == Seq::<FileMark>::empty(),
    decreases files.len() - i,
{
    if i < files.len() {
        lemma_no_candidates(log, done, files, i + 1);
    }
}

proof fn lemma_candidate_index(log: SyncLog, files: Seq<FileMark>, i: int, j: int) -> (k: int)
    requires
        0 <= i <= j < files.len(),
        needs_reindex(status_in(log, files[j].path), files[j].hash),
    ensures
        0 <= k < candidates_from(log, files, i).len(),
        candidates_from(log, files, i)[k] == files[j],
    decreases files.len() - i,
{
    if i == j {
        0
    } else if needs_reindex(status_in(log, files[i].path), files[i].hash) {
        lemma_candidate_index(log, files, i + 1, j) + 1
    } else {
        lemma_candidate_index(log, files, i + 1, j)
    }
}

/// Ingesting the same files twice: a second pass over a batch, right after
/// the first and with nothing changed, finds no file to ingest, and so
/// writes no node.
pub proof fn law_second_pass_writes_nothing(log: SyncLog, files: Seq<FileMark>, now: i64)
    requires
        is_batch(files),
    ensures
        candidates_from(after_pass(log, files, now), files, 0) == Seq::<FileMark>::empty(),
{
    let first = candidates_from(log, files, 0);
    let done = after_pass(log, files, now);
    lemma_candidates_distinct(log, files, 0);
    assert forall|j: int| 0 <= j < files.len() implies !needs_reindex(
        status_in(done, (#[trigger] files[j]).path),
        files[j].hash,
    ) by {
        if needs_reindex(status_in(log, files[j].path), files[j].hash) {
            let k = lemma_candidate_index(log, files, 0, j);
            lemma_committed_records(log, first, 0, now, k);
        } else {
            assert forall|k: int| 0 <= k < first.len() implies (#[trigger] first[k]).path
                != files[j].path by {
                lemma_candidates_members(log, files, 0, k);
                let m = choose|m: int| 0 <= m < files.len() && files[m] == first[k];
                if m == j {
                    lemma_candidate_is_needed(log, files, 0, k);
                } else if m < j {
                } else {
                }
            }
            lemma_committed_keeps(log, first, 0, now, files[j].path);
        }
    }
    lemma_no_candidates(log, done, files, 0);
}

proof fn lemma_candidate_is_needed(log: SyncLog, files: Seq<FileMark>, i: int, k: int)
    requires
        0 <= i,
        0 <= k < candidates_from(log, files, i).len(),
    ensures
        needs_reindex(
            status_in(log, candidates_from(log, files, i)[k].path),
            candidates_from(log, files, i)[k].hash,
        ),
    decreases files.len() - i,
{
    if i >= files.len() {
    } else if needs_reindex(status_in(log, files[i].path), files[i].hash) {
        if k > 0 {
            lemma_candidate_is_needed(log, files, i + 1, k - 1);
        }
    } else {
        lemma_candidate_is_needed(log, files, i + 1, k);
    }
}

} // verus!
