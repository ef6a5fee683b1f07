//! The overlay: a staging directory that shadows the workspace. Every write
//! lands in the overlay; the workspace changes only when the overlay is
//! committed. This module decides where each path lands and what a commit
//! copies; the caller touches the disk.

use crate::path::{absolute, components, is_absolute, is_prefix, join, joined, no_climb,
    lemma_resolve_no_climb, resolve, resolve_from, split, starts_with_parts};
use crate::text::{chars_of, copy_str, rows, string_of, texts};
use vstd::prelude::*;

verus! {

/// Why the overlay refuses a request.
#[derive(Debug, Clone, Copy, PartialEq, Eq)]
pub enum OverlayError {
    /// The path leaves the workspace.
    OutsideWorkspace,
    /// The overlay directory and the workspace are not disjoint.
    Overlapping,
    /// A name found in the overlay is no single component.
    InvalidEntry,
}

/// The components of `path` relative to `base`. An absolute path must lie
/// under `base`; a relative one is taken from `base`. `..` is resolved
/// lexically, and a path that climbs out of `base` has no relative form.
pub open spec fn relative_parts(base: Seq<char>, path: Seq<char>) -> Option<Seq<Seq<char>>> {
    if is_absolute(path) {
        if is_prefix(components(base), components(path)) {
            resolve_from(components(path), components(base).len() as int, seq![])
        } else {
            None
        }
    } else {
        resolve_from(components(path), 0, seq![])
    }
}

/// Where `path` lands under `overlay`: its form relative to `base`, behind
/// `overlay`.
pub open spec fn mapped(base: Seq<char>, overlay: Seq<char>, path: Seq<char>) -> Option<
    Seq<char>,
> {
    match relative_parts(base, path) {
        Some(parts) => Some(joined(overlay, parts)),
        None => None,
    }
}

/// Whether neither list of components begins with the other.
pub open spec fn disjoint(a: Seq<Seq<char>>, b: Seq<Seq<char>>) -> bool {
    !is_prefix(a, b) && !is_prefix(b, a)
}

fn relative(base: &Vec<char>, path: &Vec<char>) -> (out: Option<Vec<Vec<char>>>)
    ensures
        match out {
            Some(parts) => relative_parts(base@, path@) == Some(rows(parts@)) && no_climb(
                rows(parts@),
            ),
            None => relative_parts(base@, path@) is None,
        },
{
    let parts = split(path);
    proof {
        lemma_resolve_no_climb(components(path@), 0, seq![]);
        lemma_resolve_no_climb(components(path@), components(base@).len() as int, seq![]);
    }
    if absolute(path) {
        let root = split(base);
        if starts_with_parts(&parts, &root) {
            resolve(&parts, root.len())
        } else {
            None
        }
    } else {
        resolve(&parts, 0)
    }
}

/// Maps a path of the workspace to its place in the overlay. A path outside
/// the workspace is refused.
pub fn map_to_overlay(base_dir: &str, overlay_dir: &str, path: &str) -> (out: Result<
    String,
    OverlayError,
>)
    ensures
        match out {
            Ok(p) => mapped(base_dir@, overlay_dir@, path@) == Some(p@),
            Err(e) => mapped(base_dir@, overlay_dir@, path@) is None && e
                == OverlayError::OutsideWorkspace,
        },
{
    match relative(&chars_of(base_dir), &chars_of(path)) {
        Some(parts) => Ok(string_of(&join(&chars_of(overlay_dir), &parts))),
        None => Err(OverlayError::OutsideWorkspace),
    }
}

/// Where a read looks: first in the overlay, then in the workspace.
#[derive(Debug, Clone)]
pub struct ReadPlan {
    pub overlay_path: String,
    pub base_path: String,
}

/// Which copy of a file a read returns.
#[derive(Debug, Clone, Copy, PartialEq, Eq)]
pub enum ReadSource {
    Overlay,
    Base,
    Missing,
}

/// Where a write lands, and the directory that must exist before it.
#[derive(Debug, Clone)]
pub struct WriteTarget {
    pub path: String,
    pub parent: Option<String>,
}

/// One name found under the overlay directory: its components relative to
/// that directory, and whether it is a directory.
#[derive(Debug, Clone)]
pub struct OverlayEntry {
    pub parts: Vec<String>,
    pub is_dir: bool,
}

/// One step of a commit.
#[derive(Debug, Clone, PartialEq, Eq)]
pub enum CommitStep {
    CreateDir { path: String },
    CopyFile { from: String, to: String },
}

/// The mathematical value of a [`CommitStep`].
pub enum StepV {
    CreateDir { path: Seq<char> },
    CopyFile { from: Seq<char>, to: Seq<char> },
}

impl View for CommitStep {
    type V = StepV;

    open spec fn view(&self) -> StepV {
        match self {
            CommitStep::CreateDir { path } => StepV::CreateDir { path: path@ },
            CommitStep::CopyFile { from, to } => StepV::CopyFile { from: from@, to: to@ },
        }
    }
}

/// Whether a name is one component that stays where it is: not empty, not
/// `.` or `..`, and without a separator.
pub open spec fn is_plain_name(name: Seq<char>) -> bool {
    &&& name.len() > 0
    &&& name != seq!['.']
    &&& name != seq!['.', '.']
    &&& forall|i: int| 0 <= i < name.len() ==> name[i] != '/'
}

/// Whether every component of an entry is a plain name.
pub open spec fn is_plain_entry(parts: Seq<Seq<char>>) -> bool {
    forall|i: int| 0 <= i < parts.len() ==> is_plain_name(#[trigger] parts[i])
}

/// The step that commits one entry: a directory is created under the
/// workspace, a file is copied from the overlay onto the workspace, both at
/// the entry's relative place.
pub open spec fn step_of(base: Seq<char>, overlay: Seq<char>, parts: Seq<Seq<char>>, is_dir: bool)
    -> StepV {
    if is_dir {
        StepV::CreateDir { path: joined(base, parts) }
    } else {
        StepV::CopyFile { from: joined(overlay, parts), to: joined(base, parts) }
    }
}

fn plain_name(name: &Vec<char>) -> (ok: bool)
    ensures
        ok == is_plain_name(name@),
{
    if name.len() == 0 {
        return false;
    }
    if name.len() == 1 && name[0] == '.' {
        assert(name@ =~= seq!['.']);
        return false;
    }
    if name.len() == 2 && name[0] == '.' && name[1] == '.' {
        assert(name@ =~= seq!['.', '.']);
        return false;
    }
    let mut i: usize = 0;
    while i < name.len()
        invariant
            i <= name.len(),
            forall|k: int| 0 <= k < i ==> name@[k] != '/',
        decreases name.len() - i,
    {
        if name[i] == '/' {
            return false;
        }
        i += 1;
    }
    true
}

fn plain_parts(parts: &Vec<String>) -> (out: Option<Vec<Vec<char>>>)
    ensures
        match out {
            Some(list) => rows(list@) == texts(parts@) && is_plain_entry(texts(parts@)),
            None => !is_plain_entry(texts(parts@)),
        },
{
    let mut list: Vec<Vec<char>> = Vec::new();
    let mut i: usize = 0;
    while i < parts.len()
        invariant
            i <= parts.len(),
            rows(list@) == texts(parts@).take(i as int),
            forall|k: int| 0 <= k < i ==> is_plain_name(#[trigger] texts(parts@)[k]),
        decreases parts.len() - i,
    {
        let name = chars_of(parts[i].as_str());
        assert(texts(parts@)[i as int] == name@);
        if !plain_name(&name) {
            return None;
        }
        let ghost before = rows(list@);
        list.push(name);
        assert(rows(list@) =~= before.push(name@));
        assert(texts(parts@).take(i + 1) =~= texts(parts@).take(i as int).push(
            texts(parts@)[i as int],
        ));
        i += 1;
    }
    assert(texts(parts@).take(parts.len() as int) =~= texts(parts@));
    Some(list)
}

/// A workspace directory and the overlay directory that shadows it. The two
/// are disjoint: neither lies in the other.
pub struct OverlayFS {
    base_dir: String,
    overlay_dir: String,
}

impl OverlayFS {
    #[verifier::type_invariant]
    spec fn dirs_disjoint(self) -> bool {
        disjoint(components(self.base_dir@), components(self.overlay_dir@))
    }

    /// The workspace directory.
    pub closed spec fn base(&self) -> Seq<char> {
        self.base_dir@
    }

    /// The overlay directory.
    pub closed spec fn overlay(&self) -> Seq<char> {
        self.overlay_dir@
    }

    /// The directory of the overlay `overlay_id` under `temp_dir`.
    pub open spec fn overlay_path(temp_dir: Seq<char>, overlay_id: Seq<char>) -> Seq<char> {
        joined(temp_dir, seq!["sly_overlays"@, overlay_id])
    }

    /// The overlay `overlay_id` of the workspace `base_dir`, staged under
    /// `temp_dir`. It is refused where the directory it would use and the
    /// workspace are not disjoint.
    pub fn new(base_dir: &str, temp_dir: &str, overlay_id: &str) -> (out: Result<
        Self,
        OverlayError,
    >)
        ensures
            match out {
                Ok(o) => {
                    &&& o.base() == base_dir@
                    &&& o.overlay() == Self::overlay_path(temp_dir@, overlay_id@)
                    &&& disjoint(components(o.base()), components(o.overlay()))
                },
                Err(e) => e == OverlayError::Overlapping && !disjoint(
                    components(base_dir@),
                    components(Self::overlay_path(temp_dir@, overlay_id@)),
                ),
            },
    {
        let mut tail: Vec<Vec<char>> = Vec::new();
        tail.push(chars_of("sly_overlays"));
        tail.push(chars_of(overlay_id));
        assert(rows(tail@) =~= seq!["sly_overlays"@, overlay_id@]);
        let dir = join(&chars_of(temp_dir), &tail);
        let base_parts = split(&chars_of(base_dir));
        let overlay_parts = split(&dir);
        if starts_with_parts(&overlay_parts, &base_parts) || starts_with_parts(
            &base_parts,
            &overlay_parts,
        ) {
            return Err(OverlayError::Overlapping);
        }
        Ok(OverlayFS { base_dir: copy_str(base_dir), overlay_dir: string_of(&dir) })
    }

    /// The workspace directory. It is disjoint from the overlay directory.
    pub fn base_dir(&self) -> (out: &str)
        ensures
            out@ == self.base(),
            disjoint(components(self.base()), components(self.overlay())),
    {
        proof {
            use_type_invariant(self);
        }
        self.base_dir.as_str()
    }

    /// The overlay directory.
    pub fn overlay_dir(&self) -> (out: &str)
        ensures
            out@ == self.overlay(),
    {
        self.overlay_dir.as_str()
    }

    /// The form of `path` relative to the workspace, as a text.
    pub fn get_relative_path(&self, path: &str) -> (out: Result<String, OverlayError>)
        ensures
            match out {
                Ok(rel) => relative_parts(self.base(), path@) matches Some(parts) && rel@
                    == joined(Seq::empty(), parts),
                Err(e) => relative_parts(self.base(), path@) is None && e
                    == OverlayError::OutsideWorkspace,
            },
    {
        match relative(&chars_of(self.base_dir.as_str()), &chars_of(path)) {
            Some(parts) => {
                let empty: Vec<char> = Vec::new();
                Ok(string_of(&join(&empty, &parts)))
            },
            None => Err(OverlayError::OutsideWorkspace),
        }
    }

    /// Where a read of `path` looks: the same relative place under the
    /// overlay and under the workspace.
    pub fn locate(&self, path: &str) -> (out: Result<ReadPlan, OverlayError>)
        ensures
            match out {
                Ok(plan) => relative_parts(self.base(), path@) matches Some(parts) && plan
                    .overlay_path@ == joined(self.overlay(), parts) && plan.base_path@ == joined(
                    self.base(),
                    parts,
                ),
                Err(e) => relative_parts(self.base(), path@) is None && e
                    == OverlayError::OutsideWorkspace,
            },
    {
        match relative(&chars_of(self.base_dir.as_str()), &chars_of(path)) {
            Some(parts) => Ok(
                ReadPlan {
                    overlay_path: string_of(&join(&chars_of(self.overlay_dir.as_str()), &parts)),
                    base_path: string_of(&join(&chars_of(self.base_dir.as_str()), &parts)),
                },
            ),
            None => Err(OverlayError::OutsideWorkspace),
        }
    }

    /// Which copy a read returns: the overlay's where it has one, else the
    /// workspace's, else none.
    pub fn read_source(in_overlay: bool, in_base: bool) -> (out: ReadSource)
        ensures
            out == if in_overlay {
                ReadSource::Overlay
            } else if in_base {
                ReadSource::Base
            } else {
                ReadSource::Missing
            },
    {
        if in_overlay {
            ReadSource::Overlay
        } else if in_base {
            ReadSource::Base
        } else {
            ReadSource::Missing
        }
    }

    /// Where a write of `path` lands: always in the overlay, at the path's
    /// relative place. The parent is the directory just above, which must
    /// exist before the write; the overlay directory itself has none.
    pub fn write_target(&self, path: &str) -> (out: Result<WriteTarget, OverlayError>)
        ensures
            match out {
                Ok(target) => {
                    &&& relative_parts(self.base(), path@) matches Some(parts)
                    &&& target.path@ == joined(self.overlay(), parts)
                    &&& match target.parent {
                        Some(dir) => parts.len() > 0 && dir@ == joined(
                            self.overlay(),
                            parts.drop_last(),
                        ),
                        None => parts.len() == 0,
                    }
                },
                Err(e) => relative_parts(self.base(), path@) is None && e
                    == OverlayError::OutsideWorkspace,
            },
    {
        match relative(&chars_of(self.base_dir.as_str()), &chars_of(path)) {
            Some(parts) => {
                let root = chars_of(self.overlay_dir.as_str());
                let target = string_of(&join(&root, &parts));
                let mut above = parts;
                let parent = if above.len() > 0 {
                    let ghost before = rows(above@);
                    above.pop();
                    assert(rows(above@) =~= before.drop_last());
                    Some(string_of(&join(&root, &above)))
                } else {
                    None
                };
                Ok(WriteTarget { path: target, parent })
            },
            None => Err(OverlayError::OutsideWorkspace),
        }
    }

    /// The steps that copy the overlay onto the workspace: first the
    /// workspace directory is made sure of, then each entry is committed in
    /// the order given. A listing with a name that is no plain component is
    /// refused as a whole, so that no step leaves the workspace.
    pub fn commit(&self, entries: &Vec<OverlayEntry>) -> (out: Result<Vec<CommitStep>, OverlayError>)
        ensures
            match out {
                Ok(steps) => {
                    &&& steps@.len() == entries@.len() + 1
                    &&& steps@[0]@ == (StepV::CreateDir { path: self.base() })
                    &&& forall|i: int|
                        0 <= i < entries@.len() ==> {
                            &&& is_plain_entry(texts(entries@[i].parts@))
                            &&& (#[trigger] steps@[i + 1])@ == step_of(
                                self.base(),
                                self.overlay(),
                                texts(entries@[i].parts@),
                                entries@[i].is_dir,
                            )
                        }
                },
                Err(e) => e == OverlayError::InvalidEntry && exists|i: int|
                    0 <= i < entries@.len() && !is_plain_entry(
                        texts((#[trigger] entries@[i]).parts@),
                    ),
            },
    {
        let base = chars_of(self.base_dir.as_str());
        let overlay = chars_of(self.overlay_dir.as_str());
        let mut steps: Vec<CommitStep> = Vec::new();
        steps.push(CommitStep::CreateDir { path: copy_str(self.base_dir.as_str()) });
        let mut i: usize = 0;
        while i < entries.len()
            invariant
                i <= entries.len(),
                base@ == self.base(),
                overlay@ == self.overlay(),
                steps@.len() == i + 1,
                steps@[0]@ == (StepV::CreateDir { path: self.base() }),
                forall|k: int|
                    0 <= k < i ==> {
                        &&& is_plain_entry(texts(entries@[k].parts@))
                        &&& (#[trigger] steps@[k + 1])@ == step_of(
                            self.base(),
                            self.overlay(),
                            texts(entries@[k].parts@),
                            entries@[k].is_dir,
                        )
                    },
            decreases entries.len() - i,
        {
            let entry = &entries[i];
            let parts = match plain_parts(&entry.parts) {
                Some(p) => p,
                None => {
                    return Err(OverlayError::InvalidEntry);
                },
            };
            let to = string_of(&join(&base, &parts));
            let step = if entry.is_dir {
                CommitStep::CreateDir { path: to }
            } else {
                CommitStep::CopyFile { from: string_of(&join(&overlay, &parts)), to }
            };
            steps.push(step);
            i += 1;
        }
        Ok(steps)
    }
}

/// A change to the files of the workspace that an action asks for.
#[derive(Debug, Clone)]
pub enum FileSystemAction {
    Write { path: String, content: String },
    Delete { path: String },
}

/// What to do on disk for one change.
#[derive(Debug, Clone)]
pub enum FsStep {
    /// Create `parent` and what is missing above it, then write `content`
    /// to `path`.
    Write { parent: Option<String>, path: String, content: String },
    /// Remove `path` from the overlay if it is there. A file that only the
    /// workspace holds stays.
    Remove { path: String },
}

/// What a change does on disk. Both kinds touch the overlay only.
pub fn plan_action(overlay: &OverlayFS, action: FileSystemAction) -> (out: Result<
    FsStep,
    OverlayError,
>)
    ensures
        match (action, out) {
            (FileSystemAction::Write { path, content }, Ok(FsStep::Write { parent, path: to, content: c })) => {
                &&& relative_parts(overlay.base(), path@) matches Some(parts)
                &&& to@ == joined(overlay.overlay(), parts)
                &&& c@ == content@
                &&& match parent {
                    Some(dir) => parts.len() > 0 && dir@ == joined(
                        overlay.overlay(),
                        parts.drop_last(),
                    ),
                    None => parts.len() == 0,
                }
            },
            (FileSystemAction::Delete { path }, Ok(FsStep::Remove { path: to })) => mapped(
                overlay.base(),
                overlay.overlay(),
                path@,
            ) == Some(to@),
            (FileSystemAction::Write { path, .. }, Err(e)) => e == OverlayError::OutsideWorkspace
                && relative_parts(overlay.base(), path@) is None,
            (FileSystemAction::Delete { path }, Err(e)) => e == OverlayError::OutsideWorkspace
                && relative_parts(overlay.base(), path@) is None,
            _ => false,
        },
{
    match action {
        FileSystemAction::Write { path, content } => {
            match overlay.write_target(path.as_str()) {
                Ok(target) => Ok(
                    FsStep::Write { parent: target.parent, path: target.path, content },
                ),
                Err(e) => Err(e),
            }
        },
        FileSystemAction::Delete { path } => {
            match map_to_overlay(overlay.base_dir(), overlay.overlay_dir(), path.as_str()) {
                Ok(to) => Ok(FsStep::Remove { path: to }),
                Err(e) => Err(e),
            }
        },
    }
}

/// A scratch copy of a workspace that is removed when it is given up.
pub struct ShadowWorkspace {
    pub root: String,
}

impl ShadowWorkspace {
    pub fn new(root: String) -> (out: Self)
        ensures
            out.root == root,
    {
        ShadowWorkspace { root }
    }
}

} // verus!
