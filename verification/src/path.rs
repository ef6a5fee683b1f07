//! Paths as texts: their components, the lexical resolution of `..`, and
//! joining. The separator is `/`.

use crate::text::{push_all, rows, same_text, slice_of};
use vstd::prelude::*;

verus! {

/// Whether a piece between separators is a component: it is neither empty
/// nor `.`.
pub open spec fn is_component(piece: Seq<char>) -> bool {
    piece.len() > 0 && piece != seq!['.']
}

/// The piece as a list of components: itself, or nothing.
pub open spec fn kept(piece: Seq<char>) -> Seq<Seq<char>> {
    if is_component(piece) {
        seq![piece]
    } else {
        seq![]
    }
}

/// The components of `p` from index `i` on, where the piece being read began
/// at `start`.
pub open spec fn parts_scan(p: Seq<char>, start: int, i: int) -> Seq<Seq<char>>
    decreases p.len() - i,
{
    if start < 0 || i < start || i > p.len() {
        seq![]
    } else if i == p.len() {
        kept(p.subrange(start, i))
    } else if p[i] == '/' {
        kept(p.subrange(start, i)) + parts_scan(p, i + 1, i + 1)
    } else {
        parts_scan(p, start, i + 1)
    }
}

/// The components of a path: the pieces between its separators, without the
/// empty ones and the `.` ones.
pub open spec fn components(p: Seq<char>) -> Seq<Seq<char>> {
    parts_scan(p, 0, 0)
}

/// Whether a path is absolute: it begins with the separator.
pub open spec fn is_absolute(p: Seq<char>) -> bool {
    p.len() > 0 && p[0] == '/'
}

/// Whether `a` is the beginning of `b`, component by component.
pub open spec fn is_prefix(a: Seq<Seq<char>>, b: Seq<Seq<char>>) -> bool {
    a.len() <= b.len() && b.take(a.len() as int) == a
}

/// The components from index `i` on applied to `acc`: `..` drops the last
/// component gathered so far, any other is added. `None` where a `..` finds
/// nothing to drop, which is a path that climbs out of its start.
pub open spec fn resolve_from(parts: Seq<Seq<char>>, i: int, acc: Seq<Seq<char>>) -> Option<
    Seq<Seq<char>>,
>
    decreases parts.len() - i,
{
    if i < 0 || i >= parts.len() {
        Some(acc)
    } else if parts[i] == seq!['.', '.'] {
        if acc.len() == 0 {
            None
        } else {
            resolve_from(parts, i + 1, acc.drop_last())
        }
    } else {
        resolve_from(parts, i + 1, acc.push(parts[i]))
    }
}

/// `dir` with one more component behind it.
pub open spec fn join_part(dir: Seq<char>, part: Seq<char>) -> Seq<char> {
    if dir.len() == 0 {
        part
    } else if dir.last() == '/' {
        dir + part
    } else {
        dir.push('/') + part
    }
}

/// `dir` with the components from index `i` on behind it.
pub open spec fn joined_from(dir: Seq<char>, parts: Seq<Seq<char>>, i: int) -> Seq<char>
    decreases parts.len() - i,
{
    if i < 0 || i >= parts.len() {
        dir
    } else {
        joined_from(join_part(dir, parts[i]), parts, i + 1)
    }
}

/// `dir` with `parts` behind it.
pub open spec fn joined(dir: Seq<char>, parts: Seq<Seq<char>>) -> Seq<char> {
    joined_from(dir, parts, 0)
}

/// Whether no component is `..`.
pub open spec fn no_climb(parts: Seq<Seq<char>>) -> bool {
    forall|i: int| 0 <= i < parts.len() ==> #[trigger] parts[i] != seq!['.', '.']
}

/// What `resolve_from` returns holds no `..` if what was gathered held none.
pub proof fn lemma_resolve_no_climb(parts: Seq<Seq<char>>, i: int, acc: Seq<Seq<char>>)
    requires
        no_climb(acc),
    ensures
        resolve_from(parts, i, acc) matches Some(out) ==> no_climb(out),
    decreases parts.len() - i,
{
    if i < 0 || i >= parts.len() {
    } else if parts[i] == seq!['.', '.'] {
        if acc.len() > 0 {
            lemma_resolve_no_climb(parts, i + 1, acc.drop_last());
        }
    } else {
        lemma_resolve_no_climb(parts, i + 1, acc.push(parts[i]));
    }
}

fn keep(p: &Vec<char>, start: usize, end: usize, out: &mut Vec<Vec<char>>)
    requires
        start <= end <= p.len(),
    ensures
        rows(final(out)@) == rows(old(out)@) + kept(p@.subrange(start as int, end as int)),
{
    let piece = slice_of(p, start, end);
    let is_dot = piece.len() == 1 && piece[0] == '.';
    assert(is_dot == (piece@ == seq!['.'])) by {
        if is_dot {
            assert(piece@ =~= seq!['.']);
        }
    }
    if piece.len() > 0 && !is_dot {
        let ghost before = rows(out@);
        out.push(piece);
        assert(rows(out@) =~= before + seq![piece@]);
    } else {
        assert(rows(out@) + Seq::<Seq<char>>::empty() =~= rows(out@));
    }
}

/// The components of a path.
pub fn split(p: &Vec<char>) -> (out: Vec<Vec<char>>)
    ensures
        rows(out@) == components(p@),
{
    let mut out: Vec<Vec<char>> = Vec::new();
    let mut start: usize = 0;
    let mut i: usize = 0;
    assert(rows(out@) + components(p@) =~= components(p@));
    while i < p.len()
        invariant
            start <= i <= p.len(),
            components(p@) == rows(out@) + parts_scan(p@, start as int, i as int),
        decreases p.len() - i,
    {
        if p[i] == '/' {
            let ghost before = rows(out@);
            keep(p, start, i, &mut out);
            assert(before + (kept(p@.subrange(start as int, i as int)) + parts_scan(
                p@,
                i + 1,
                i + 1,
            )) =~= rows(out@) + parts_scan(p@, i + 1, i + 1));
            start = i + 1;
        }
        i += 1;
    }
    keep(p, start, i, &mut out);
    out
}

/// Whether a path begins with the separator.
pub fn absolute(p: &Vec<char>) -> (b: bool)
    ensures
        b == is_absolute(p@),
{
    p.len() > 0 && p[0] == '/'
}

/// Whether `a` is the beginning of `b`, component by component.
pub fn starts_with_parts(b: &Vec<Vec<char>>, a: &Vec<Vec<char>>) -> (hit: bool)
    ensures
        hit == is_prefix(rows(a@), rows(b@)),
{
    if a.len() > b.len() {
        return false;
    }
    let mut i: usize = 0;
    while i < a.len()
        invariant
            i <= a.len() <= b.len(),
            rows(b@).take(i as int) == rows(a@).take(i as int),
        decreases a.len() - i,
    {
        if !same_text(&a[i], &b[i]) {
            assert(rows(b@).take(a.len() as int)[i as int] == b@[i as int]@);
            assert(rows(a@)[i as int] == a@[i as int]@);
            return false;
        }
        assert(rows(b@).take(i + 1) =~= rows(b@).take(i as int).push(b@[i as int]@));
        assert(rows(a@).take(i + 1) =~= rows(a@).take(i as int).push(a@[i as int]@));
        i += 1;
    }
    assert(rows(a@).take(a.len() as int) =~= rows(a@));
    true
}

/// Applies the components from index `from` on, resolving `..` lexically.
pub fn resolve(parts: &Vec<Vec<char>>, from: usize) -> (out: Option<Vec<Vec<char>>>)
    ensures
        match out {
            Some(list) => resolve_from(rows(parts@), from as int, seq![]) == Some(rows(list@)),
            None => resolve_from(rows(parts@), from as int, seq![]) is None,
        },
{
    let mut acc: Vec<Vec<char>> = Vec::new();
    let mut i: usize = from;
    assert(rows(acc@) =~= Seq::<Seq<char>>::empty());
    while i < parts.len()
        invariant
            resolve_from(rows(parts@), from as int, seq![]) == resolve_from(
                rows(parts@),
                i as int,
                rows(acc@),
            ),
        decreases parts.len() - i,
    {
        let part = &parts[i];
        assert(rows(parts@)[i as int] == part@);
        let climbs = part.len() == 2 && part[0] == '.' && part[1] == '.';
        assert(climbs == (part@ == seq!['.', '.'])) by {
            if climbs {
                assert(part@ =~= seq!['.', '.']);
            }
        }
        if climbs {
            if acc.len() == 0 {
                return None;
            }
            let ghost before = rows(acc@);
            acc.pop();
            assert(rows(acc@) =~= before.drop_last());
        } else {
            let ghost before = rows(acc@);
            let copy = slice_of(part, 0, part.len());
            assert(copy@ =~= part@);
            acc.push(copy);
            assert(rows(acc@) =~= before.push(part@));
        }
        i += 1;
    }
    Some(acc)
}

/// `dir` with `parts` behind it.
pub fn join(dir: &Vec<char>, parts: &Vec<Vec<char>>) -> (out: Vec<char>)
    ensures
        out@ == joined(dir@, rows(parts@)),
{
    let mut out = slice_of(dir, 0, dir.len());
    assert(out@ =~= dir@);
    let mut i: usize = 0;
    while i < parts.len()
        invariant
            i <= parts.len(),
            joined(dir@, rows(parts@)) == joined_from(out@, rows(parts@), i as int),
        decreases parts.len() - i,
    {
        assert(rows(parts@)[i as int] == parts@[i as int]@);
        let ghost before = out@;
        if out.len() > 0 && out[out.len() - 1] != '/' {
            out.push('/');
        }
        push_all(&mut out, &parts[i]);
        assert(out@ =~= join_part(before, parts@[i as int]@));
        i += 1;
    }
    out
}


/// Whether a text holds no separator.
pub open spec fn no_separator(name: Seq<char>) -> bool {
    forall|i: int| 0 <= i < name.len() ==> name[i] != '/'
}

/// Whether a text can be one component of a path: it is a component and
/// holds no separator.
pub open spec fn is_name(name: Seq<char>) -> bool {
    is_component(name) && no_separator(name)
}

/// Whether every text of a list can be one component of a path.
pub open spec fn all_names(parts: Seq<Seq<char>>) -> bool {
    forall|i: int| 0 <= i < parts.len() ==> is_name(#[trigger] parts[i])
}

proof fn lemma_scan_names(p: Seq<char>, start: int, i: int)
    requires
        0 <= start <= i <= p.len(),
        forall|k: int| start <= k < i ==> p[k] != '/',
    ensures
        all_names(parts_scan(p, start, i)),
    decreases p.len() - i,
{
    let piece = p.subrange(start, i);
    if i == p.len() {
    } else if p[i] == '/' {
        lemma_scan_names(p, i + 1, i + 1);
        let rest = parts_scan(p, i + 1, i + 1);
        let all = kept(piece) + rest;
        assert forall|k: int| 0 <= k < all.len() implies is_name(#[trigger] all[k]) by {
            if k < kept(piece).len() {
                assert(all[k] == piece);
            } else {
                assert(all[k] == rest[k - kept(piece).len()]);
            }
        }
    } else {
        lemma_scan_names(p, start, i + 1);
    }
}

/// Every component of a path can be one: it is not empty, not `.`, and
/// holds no separator.
pub proof fn lemma_components_are_names(p: Seq<char>)
    ensures
        all_names(components(p)),
{
    lemma_scan_names(p, 0, 0);
}

proof fn lemma_scan_tail(s: Seq<char>, start: int, i: int)
    requires
        0 <= start <= i <= s.len(),
        forall|k: int| start <= k < s.len() ==> s[k] != '/',
    ensures
        parts_scan(s, start, i) == kept(s.subrange(start, s.len() as int)),
    decreases s.len() - i,
{
    if i < s.len() {
        lemma_scan_tail(s, start, i + 1);
    }
}

proof fn lemma_scan_trailing_separator(a: Seq<char>, start: int, i: int)
    requires
        0 <= start <= i <= a.len(),
    ensures
        parts_scan(a.push('/'), start, i) == parts_scan(a, start, i),
    decreases a.len() - i,
{
    let s = a.push('/');
    if i == a.len() {
        assert(s.subrange(start, i) =~= a.subrange(start, i));
        assert(s.subrange(i + 1, i + 1) =~= Seq::<char>::empty());
        assert(parts_scan(s, i + 1, i + 1) == kept(s.subrange(i + 1, i + 1)));
        assert(parts_scan(s, start, i) == kept(s.subrange(start, i)) + parts_scan(
            s,
            i + 1,
            i + 1,
        ));
        assert(kept(a.subrange(start, i)) + Seq::<Seq<char>>::empty() =~= kept(
            a.subrange(start, i),
        ));
    } else {
        assert(s[i] == a[i]);
        if a[i] == '/' {
            assert(s.subrange(start, i) =~= a.subrange(start, i));
            lemma_scan_trailing_separator(a, i + 1, i + 1);
        } else {
            lemma_scan_trailing_separator(a, start, i + 1);
        }
    }
}

proof fn lemma_scan_appended(a: Seq<char>, part: Seq<char>, start: int, i: int)
    requires
        0 <= start <= i <= a.len(),
        is_name(part),
        a.len() == 0 || a.last() == '/',
        i == a.len() ==> start == a.len(),
    ensures
        parts_scan(a + part, start, i) == parts_scan(a, start, i) + seq![part],
    decreases a.len() - i,
{
    let s = a + part;
    if i == a.len() {
        lemma_scan_tail(s, start, i);
        assert(s.subrange(start, s.len() as int) =~= part);
        assert(a.subrange(start, i) =~= Seq::<char>::empty());
        assert(Seq::<Seq<char>>::empty() + seq![part] =~= seq![part]);
    } else {
        assert(s[i] == a[i]);
        if a[i] == '/' {
            assert(s.subrange(start, i) =~= a.subrange(start, i));
            lemma_scan_appended(a, part, i + 1, i + 1);
            assert(kept(a.subrange(start, i)) + (parts_scan(a, i + 1, i + 1) + seq![part])
                =~= (kept(a.subrange(start, i)) + parts_scan(a, i + 1, i + 1)) + seq![part]);
        } else {
            lemma_scan_appended(a, part, start, i + 1);
        }
    }
}

/// Joining one name to a directory adds that name to its components.
pub proof fn lemma_components_join_part(dir: Seq<char>, part: Seq<char>)
    requires
        is_name(part),
    ensures
        components(join_part(dir, part)) == components(dir).push(part),
{
    if dir.len() == 0 {
        lemma_scan_appended(dir, part, 0, 0);
        assert(dir + part =~= part);
        assert(components(dir) + seq![part] =~= components(dir).push(part));
    } else if dir.last() == '/' {
        lemma_scan_appended(dir, part, 0, 0);
        assert(components(dir) + seq![part] =~= components(dir).push(part));
    } else {
        lemma_scan_trailing_separator(dir, 0, 0);
        lemma_scan_appended(dir.push('/'), part, 0, 0);
        assert(components(dir.push('/')) + seq![part] =~= components(dir).push(part));
    }
}

proof fn lemma_components_joined_from(dir: Seq<char>, parts: Seq<Seq<char>>, i: int)
    requires
        0 <= i <= parts.len(),
        all_names(parts),
    ensures
        components(joined_from(dir, parts, i)) == components(dir) + parts.subrange(
            i,
            parts.len() as int,
        ),
    decreases parts.len() - i,
{
    if i >= parts.len() {
        assert(components(dir) + parts.subrange(i, parts.len() as int) =~= components(dir));
    } else {
        lemma_components_join_part(dir, parts[i]);
        lemma_components_joined_from(join_part(dir, parts[i]), parts, i + 1);
        assert(components(dir).push(parts[i]) + parts.subrange(i + 1, parts.len() as int)
            =~= components(dir) + parts.subrange(i, parts.len() as int));
    }
}

/// The components of a directory with names joined behind it are those of
/// the directory, then the names.
pub proof fn lemma_components_joined(dir: Seq<char>, parts: Seq<Seq<char>>)
    requires
        all_names(parts),
    ensures
        components(joined(dir, parts)) == components(dir) + parts,
{
    lemma_components_joined_from(dir, parts, 0);
    assert(parts.subrange(0, parts.len() as int) =~= parts);
}

/// What `resolve_from` returns holds names only, if the components and what
/// was gathered hold names only.
pub proof fn lemma_resolve_names(parts: Seq<Seq<char>>, i: int, acc: Seq<Seq<char>>)
    requires
        all_names(parts),
        all_names(acc),
    ensures
        resolve_from(parts, i, acc) matches Some(out) ==> all_names(out),
    decreases parts.len() - i,
{
    if i < 0 || i >= parts.len() {
    } else if parts[i] == seq!['.', '.'] {
        if acc.len() > 0 {
            lemma_resolve_names(parts, i + 1, acc.drop_last());
        }
    } else {
        lemma_resolve_names(parts, i + 1, acc.push(parts[i]));
    }
}

/// Two lists that both begin a third: one of them begins the other.
pub proof fn lemma_prefixes_nest(a: Seq<Seq<char>>, b: Seq<Seq<char>>, c: Seq<Seq<char>>)
    requires
        is_prefix(a, c),
        is_prefix(b, c),
    ensures
        is_prefix(a, b) || is_prefix(b, a),
{
    if a.len() <= b.len() {
        assert(b.take(a.len() as int) =~= c.take(b.len() as int).take(a.len() as int));
        assert(c.take(a.len() as int) =~= c.take(b.len() as int).take(a.len() as int));
    } else {
        assert(a.take(b.len() as int) =~= c.take(a.len() as int).take(b.len() as int));
        assert(c.take(b.len() as int) =~= c.take(a.len() as int).take(b.len() as int));
    }
}

} // verus!
