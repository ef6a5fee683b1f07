//! The overlay as a model: the disk is a map from paths to contents, and a
//! session writes, reads, commits and rolls back through the places that
//! [`crate::overlay`] computes. The laws of the overlay are stated and
//! proved here.

use crate::overlay::{disjoint, is_plain_entry, mapped, relative_parts, step_of, StepV};
use crate::path::{all_names, components, is_name, is_prefix, joined, lemma_components_are_names,
    lemma_components_joined, lemma_prefixes_nest, lemma_resolve_names};
use vstd::prelude::*;

verus! {

/// The files on disk: the content of each path that holds a file.
pub type Disk = Map<Seq<char>, Seq<char>>;

/// A workspace directory and the overlay directory that shadows it.
pub struct Dirs {
    pub base: Seq<char>,
    pub overlay: Seq<char>,
}

/// Whether the two directories are disjoint.
pub open spec fn wf(dirs: Dirs) -> bool {
    disjoint(components(dirs.base), components(dirs.overlay))
}

/// Whether a path lies in or under a directory.
pub open spec fn under(dir: Seq<char>, path: Seq<char>) -> bool {
    is_prefix(components(dir), components(path))
}

/// The disk after `content` is written to `path` through the overlay: the
/// file lands at the path's place in the overlay; a path outside the
/// workspace changes nothing.
pub open spec fn written(dirs: Dirs, disk: Disk, path: Seq<char>, content: Seq<char>) -> Disk {
    match mapped(dirs.base, dirs.overlay, path) {
        Some(to) => disk.insert(to, content),
        None => disk,
    }
}

/// What a read of `path` through the overlay returns: the overlay's copy
/// where there is one, else the workspace's, else nothing.
pub open spec fn read_through(dirs: Dirs, disk: Disk, path: Seq<char>) -> Option<Seq<char>> {
    match relative_parts(dirs.base, path) {
        Some(parts) => if disk.contains_key(joined(dirs.overlay, parts)) {
            Some(disk[joined(dirs.overlay, parts)])
        } else if disk.contains_key(joined(dirs.base, parts)) {
            Some(disk[joined(dirs.base, parts)])
        } else {
            None
        },
        None => None,
    }
}

/// What a read of `path` in the workspace itself returns.
pub open spec fn base_read(dirs: Dirs, disk: Disk, path: Seq<char>) -> Option<Seq<char>> {
    match relative_parts(dirs.base, path) {
        Some(parts) => if disk.contains_key(joined(dirs.base, parts)) {
            Some(disk[joined(dirs.base, parts)])
        } else {
            None
        },
        None => None,
    }
}

/// The relative form of a path holds names only.
pub proof fn lemma_relative_names(base: Seq<char>, path: Seq<char>)
    ensures
        relative_parts(base, path) matches Some(parts) ==> all_names(parts),
{
    lemma_components_are_names(path);
    lemma_resolve_names(components(path), 0, seq![]);
    lemma_resolve_names(components(path), components(base).len() as int, seq![]);
}

/// Names joined behind a directory give a path under that directory.
pub proof fn lemma_joined_under(dir: Seq<char>, parts: Seq<Seq<char>>)
    requires
        all_names(parts),
    ensures
        under(dir, joined(dir, parts)),
{
    lemma_components_joined(dir, parts);
    assert((components(dir) + parts).take(components(dir).len() as int) =~= components(dir));
}

/// No path lies under both of two disjoint directories.
pub proof fn lemma_not_under_both(dirs: Dirs, path: Seq<char>)
    requires
        wf(dirs),
    ensures
        !(under(dirs.base, path) && under(dirs.overlay, path)),
{
    if under(dirs.base, path) && under(dirs.overlay, path) {
        lemma_prefixes_nest(components(dirs.base), components(dirs.overlay), components(path));
    }
}

/// Different names behind one directory give different paths.
pub proof fn lemma_joined_injective(dir: Seq<char>, p: Seq<Seq<char>>, q: Seq<Seq<char>>)
    requires
        all_names(p),
        all_names(q),
        joined(dir, p) == joined(dir, q),
    ensures
        p == q,
{
    lemma_components_joined(dir, p);
    lemma_components_joined(dir, q);
    let c = components(dir);
    assert((c + p).subrange(c.len() as int, (c + p).len() as int) =~= p);
    assert((c + q).subrange(c.len() as int, (c + q).len() as int) =~= q);
}

/// Shadowing: after a write through the overlay that is not committed, a
/// read through the overlay returns what was written, and every read in the
/// workspace itself returns what it returned before.
pub proof fn law_write_is_shadowed(
    dirs: Dirs,
    disk: Disk,
    path: Seq<char>,
    content: Seq<char>,
    other: Seq<char>,
)
    requires
        wf(dirs),
        relative_parts(dirs.base, path) is Some,
    ensures
        read_through(dirs, written(dirs, disk, path, content), path) == Some(content),
        base_read(dirs, written(dirs, disk, path, content), other) == base_read(
            dirs,
            disk,
            other,
        ),
{
    let parts = relative_parts(dirs.base, path)->0;
    lemma_relative_names(dirs.base, path);
    lemma_relative_names(dirs.base, other);
    lemma_joined_under(dirs.overlay, parts);
    if relative_parts(dirs.base, other) is Some {
        let q = relative_parts(dirs.base, other)->0;
        lemma_joined_under(dirs.base, q);
        lemma_not_under_both(dirs, joined(dirs.base, q));
    }
}

/// A path outside the workspace is refused, and the disk stays as it is.
pub proof fn law_outside_write_changes_nothing(
    dirs: Dirs,
    disk: Disk,
    path: Seq<char>,
    content: Seq<char>,
)
    requires
        relative_parts(dirs.base, path) is None,
    ensures
        written(dirs, disk, path, content) == disk,
{
}

/// The disk after one step of a commit: a copy gives the target the content
/// of the source, if the source is there; making a directory changes no
/// file.
pub open spec fn after_step(disk: Disk, step: StepV) -> Disk {
    match step {
        StepV::CopyFile { from, to } => if disk.contains_key(from) {
            disk.insert(to, disk[from])
        } else {
            disk
        },
        StepV::CreateDir { .. } => disk,
    }
}

/// One entry of the overlay's listing: its names, and whether it is a
/// directory.
pub struct EntryV {
    pub parts: Seq<Seq<char>>,
    pub is_dir: bool,
}

/// The disk after the entries from index `i` on are committed, in order.
pub open spec fn after_commit_from(dirs: Dirs, disk: Disk, entries: Seq<EntryV>, i: int) -> Disk
    decreases entries.len() - i,
{
    if i < 0 || i >= entries.len() {
        disk
    } else {
        after_commit_from(
            dirs,
            after_step(disk, step_of(dirs.base, dirs.overlay, entries[i].parts, entries[i].is_dir)),
            entries,
            i + 1,
        )
    }
}

/// The disk after a commit of the listed entries.
pub open spec fn after_commit(dirs: Dirs, disk: Disk, entries: Seq<EntryV>) -> Disk {
    after_commit_from(dirs, disk, entries, 0)
}

/// Whether every entry of a listing holds plain names only.
pub open spec fn plain_listing(entries: Seq<EntryV>) -> bool {
    forall|i: int| 0 <= i < entries.len() ==> is_plain_entry((#[trigger] entries[i]).parts)
}

proof fn lemma_plain_is_names(parts: Seq<Seq<char>>)
    requires
        is_plain_entry(parts),
    ensures
        all_names(parts),
{
    assert forall|i: int| 0 <= i < parts.len() implies is_name(#[trigger] parts[i]) by {
        assert(crate::overlay::is_plain_name(parts[i]));
    }
}

proof fn lemma_commit_from(
    dirs: Dirs,
    start: Disk,
    disk: Disk,
    entries: Seq<EntryV>,
    i: int,
    k: int,
)
    requires
        wf(dirs),
        plain_listing(entries),
        0 <= i <= entries.len(),
        0 <= k < entries.len(),
        !entries[k].is_dir,
        start.contains_key(joined(dirs.overlay, entries[k].parts)),
        forall|p: Seq<char>|
            under(dirs.overlay, p) ==> #[trigger] disk.contains_key(p) == start.contains_key(p)
                && (disk.contains_key(p) ==> disk[p] == start[p]),
        k < i ==> disk.contains_key(joined(dirs.base, entries[k].parts)) && disk[joined(
            dirs.base,
            entries[k].parts,
        )] == start[joined(dirs.overlay, entries[k].parts)],
    ensures
        after_commit_from(dirs, disk, entries, i).contains_key(
            joined(dirs.base, entries[k].parts),
        ),
        after_commit_from(dirs, disk, entries, i)[joined(dirs.base, entries[k].parts)]
            == start[joined(dirs.overlay, entries[k].parts)],
    decreases entries.len() - i,
{
    let wanted = entries[k].parts;
    lemma_plain_is_names(wanted);
    lemma_joined_under(dirs.overlay, wanted);
    if i < entries.len() {
        let e = entries[i];
        lemma_plain_is_names(e.parts);
        lemma_joined_under(dirs.overlay, e.parts);
        lemma_joined_under(dirs.base, e.parts);
        lemma_not_under_both(dirs, joined(dirs.base, e.parts));
        let next = after_step(disk, step_of(dirs.base, dirs.overlay, e.parts, e.is_dir));
        if !e.is_dir && joined(dirs.base, e.parts) == joined(dirs.base, wanted) {
            lemma_joined_injective(dirs.base, e.parts, wanted);
        }
        assert forall|p: Seq<char>| under(dirs.overlay, p) implies next.contains_key(p)
            == start.contains_key(p) && (next.contains_key(p) ==> next[p] == start[p]) by {
            assert(p != joined(dirs.base, e.parts));
            assert(disk.contains_key(p) == start.contains_key(p));
        }
        lemma_commit_from(dirs, start, next, entries, i + 1, k);
    }
}

/// Commit: after a commit, the workspace holds, for every file listed in
/// the overlay, the content that the overlay held for it when the commit
/// began.
pub proof fn law_commit_promotes(dirs: Dirs, disk: Disk, entries: Seq<EntryV>, k: int)
    requires
        wf(dirs),
        plain_listing(entries),
        0 <= k < entries.len(),
        !entries[k].is_dir,
        disk.contains_key(joined(dirs.overlay, entries[k].parts)),
    ensures
        after_commit(dirs, disk, entries).contains_key(joined(dirs.base, entries[k].parts)),
        after_commit(dirs, disk, entries)[joined(dirs.base, entries[k].parts)] == disk[joined(
            dirs.overlay,
            entries[k].parts,
        )],
{
    lemma_commit_from(dirs, disk, disk, entries, 0, k);
}

/// The disk after a rollback: every file under the overlay directory is
/// gone.
pub open spec fn rolled_back(dirs: Dirs, disk: Disk) -> Disk {
    disk.remove_keys(Set::new(|p: Seq<char>| under(dirs.overlay, p)))
}

/// One write through the overlay: the path and the content.
pub struct WriteV {
    pub path: Seq<char>,
    pub content: Seq<char>,
}

/// The disk after the writes from index `i` on, in order.
pub open spec fn written_all(dirs: Dirs, disk: Disk, writes: Seq<WriteV>, i: int) -> Disk
    decreases writes.len() - i,
{
    if i < 0 || i >= writes.len() {
        disk
    } else {
        written_all(
            dirs,
            written(dirs, disk, writes[i].path, writes[i].content),
            writes,
            i + 1,
        )
    }
}

proof fn lemma_writes_keep_base(dirs: Dirs, disk: Disk, writes: Seq<WriteV>, i: int, p: Seq<char>)
    requires
        wf(dirs),
        0 <= i,
        under(dirs.base, p),
    ensures
        written_all(dirs, disk, writes, i).contains_key(p) == disk.contains_key(p),
        disk.contains_key(p) ==> written_all(dirs, disk, writes, i)[p] == disk[p],
    decreases writes.len() - i,
{
    if i < writes.len() {
        let w = writes[i];
        lemma_relative_names(dirs.base, w.path);
        if relative_parts(dirs.base, w.path) is Some {
            lemma_joined_under(dirs.overlay, relative_parts(dirs.base, w.path)->0);
            lemma_not_under_both(dirs, p);
        }
        lemma_writes_keep_base(dirs, written(dirs, disk, w.path, w.content), writes, i + 1, p);
    }
}

/// Rollback: after any writes through the overlay and a rollback, nothing
/// is left under the overlay directory, and every path under the workspace
/// holds exactly what it held before the first write.
pub proof fn law_rollback_restores(dirs: Dirs, disk: Disk, writes: Seq<WriteV>, p: Seq<char>)
    requires
        wf(dirs),
    ensures
        under(dirs.overlay, p) ==> !rolled_back(
            dirs,
            written_all(dirs, disk, writes, 0),
        ).contains_key(p),
        under(dirs.base, p) ==> rolled_back(
            dirs,
            written_all(dirs, disk, writes, 0),
        ).contains_key(p) == disk.contains_key(p),
        under(dirs.base, p) && disk.contains_key(p) ==> rolled_back(
            dirs,
            written_all(dirs, disk, writes, 0),
        )[p] == disk[p],
{
    if under(dirs.base, p) {
        lemma_writes_keep_base(dirs, disk, writes, 0, p);
        lemma_not_under_both(dirs, p);
    }
}

/// A rollback of a disk that holds nothing under the overlay directory
/// changes nothing: rolling back twice is rolling back once.
pub proof fn law_rollback_idempotent(dirs: Dirs, disk: Disk)
    ensures
        rolled_back(dirs, rolled_back(dirs, disk)) == rolled_back(dirs, disk),
{
    assert(rolled_back(dirs, rolled_back(dirs, disk)) =~= rolled_back(dirs, disk));
}

/// Every write lands inside the overlay directory, at the same relative
/// place that the target has under the workspace, and that place holds no
/// `..`: it cannot climb out again.
pub proof fn law_write_stays_inside(dirs: Dirs, path: Seq<char>)
    requires
        relative_parts(dirs.base, path) is Some,
    ensures
        mapped(dirs.base, dirs.overlay, path) matches Some(to) && under(dirs.overlay, to)
            && components(to) == components(dirs.overlay) + relative_parts(dirs.base, path)->0,
        components(joined(dirs.base, relative_parts(dirs.base, path)->0)) == components(
            dirs.base,
        ) + relative_parts(dirs.base, path)->0,
        crate::path::no_climb(relative_parts(dirs.base, path)->0),
{
    let parts = relative_parts(dirs.base, path)->0;
    crate::path::lemma_resolve_no_climb(components(path), 0, seq![]);
    crate::path::lemma_resolve_no_climb(components(path), components(dirs.base).len() as int, seq![]);
    lemma_relative_names(dirs.base, path);
    lemma_joined_under(dirs.overlay, parts);
    lemma_components_joined(dirs.overlay, parts);
    lemma_components_joined(dirs.base, parts);
}

} // verus!
