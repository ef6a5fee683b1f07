//! The order of texts, and lists of texts kept in order without repeats.

use crate::text::{chars_of, texts};
use vstd::prelude::*;

verus! {

/// Whether `a` comes before `b` in the order of the dictionary, character
/// by character: at the first place where they differ `a` has the smaller
/// character, or `a` ends there and `b` goes on.
pub open spec fn precedes(a: Seq<char>, b: Seq<char>) -> bool {
    exists|k: int| differ_at(a, b, k)
}

/// Whether `k` is the first place where `a` and `b` differ, and `a` is the
/// smaller there.
pub open spec fn differ_at(a: Seq<char>, b: Seq<char>, k: int) -> bool {
    &&& 0 <= k <= a.len()
    &&& k <= b.len()
    &&& a.take(k) == b.take(k)
    &&& if k == a.len() {
        k < b.len()
    } else {
        k < b.len() && a[k] < b[k]
    }
}

/// The order is transitive.
pub proof fn lemma_precedes_transitive(a: Seq<char>, b: Seq<char>, c: Seq<char>)
    requires
        precedes(a, b),
        precedes(b, c),
    ensures
        precedes(a, c),
{
    let k1 = choose|k: int| differ_at(a, b, k);
    let k2 = choose|k: int| differ_at(b, c, k);
    let k = if k1 <= k2 {
        k1
    } else {
        k2
    };
    assert(a.take(k) =~= a.take(k1).take(k));
    assert(b.take(k) =~= b.take(k1).take(k));
    assert(b.take(k) =~= b.take(k2).take(k));
    assert(c.take(k) =~= c.take(k2).take(k));
    if k1 < k2 {
        assert(b.take(k2)[k1] == c.take(k2)[k1]);
    } else if k2 < k1 {
        assert(a.take(k1)[k2] == b.take(k1)[k2]);
    }
    assert(differ_at(a, c, k));
}

/// How two texts stand to each other.
#[derive(Debug, Clone, Copy, PartialEq, Eq)]
pub enum Rank {
    Before,
    Same,
    After,
}

/// How `a` stands to `b` in the order of the dictionary.
pub fn rank(a: &Vec<char>, b: &Vec<char>) -> (out: Rank)
    ensures
        match out {
            Rank::Before => precedes(a@, b@),
            Rank::Same => a@ == b@,
            Rank::After => precedes(b@, a@),
        },
{
    let mut i: usize = 0;
    while i < a.len() && i < b.len()
        invariant
            i <= a.len(),
            i <= b.len(),
            a@.take(i as int) == b@.take(i as int),
        decreases a.len() - i,
    {
        if a[i] < b[i] {
            assert(differ_at(a@, b@, i as int));
            return Rank::Before;
        }
        if b[i] < a[i] {
            assert(differ_at(b@, a@, i as int));
            return Rank::After;
        }
        assert(a@.take(i + 1) =~= a@.take(i as int).push(a@[i as int]));
        assert(b@.take(i + 1) =~= b@.take(i as int).push(b@[i as int]));
        i += 1;
    }
    if i < b.len() {
        assert(differ_at(a@, b@, i as int));
        Rank::Before
    } else if i < a.len() {
        assert(differ_at(b@, a@, i as int));
        Rank::After
    } else {
        assert(a@.take(i as int) =~= a@);
        assert(b@.take(i as int) =~= b@);
        Rank::Same
    }
}

/// Whether a list is in order without repeats: each text comes before every
/// later one.
pub open spec fn strictly_sorted(list: Seq<Seq<char>>) -> bool {
    forall|i: int, j: int| 0 <= i < j < list.len() ==> precedes(list[i], list[j])
}

/// The list with `x` put in before the first text that it precedes, unless
/// a text equal to `x` is met first.
pub open spec fn inserted(list: Seq<Seq<char>>, x: Seq<char>) -> Seq<Seq<char>>
    decreases list.len(),
{
    if list.len() == 0 {
        seq![x]
    } else if list[0] == x {
        list
    } else if precedes(x, list[0]) {
        seq![x] + list
    } else {
        seq![list[0]] + inserted(list.drop_first(), x)
    }
}

/// The texts from index `i` on put one by one into `acc`.
pub open spec fn inserted_all(acc: Seq<Seq<char>>, items: Seq<Seq<char>>, i: int) -> Seq<
    Seq<char>,
>
    decreases items.len() - i,
{
    if i < 0 || i >= items.len() {
        acc
    } else {
        inserted_all(inserted(acc, items[i]), items, i + 1)
    }
}

/// The texts of `items` in order, each once.
pub open spec fn sorted_set(items: Seq<Seq<char>>) -> Seq<Seq<char>> {
    inserted_all(seq![], items, 0)
}

proof fn lemma_asymmetric(a: Seq<char>, b: Seq<char>)
    requires
        precedes(a, b),
    ensures
        !precedes(b, a),
        a != b,
{
    if precedes(b, a) {
        lemma_precedes_transitive(a, b, a);
    }
}

proof fn lemma_inserted_at(list: Seq<Seq<char>>, x: Seq<char>, i: int)
    requires
        0 <= i <= list.len(),
        forall|k: int| 0 <= k < i ==> precedes(#[trigger] list[k], x),
        i < list.len() ==> precedes(x, list[i]),
    ensures
        inserted(list, x) == list.insert(i, x),
    decreases i,
{
    if i == 0 {
        if list.len() > 0 {
            lemma_asymmetric(x, list[0]);
            assert(seq![x] + list =~= list.insert(0, x));
        } else {
            assert(seq![x] =~= list.insert(0, x));
        }
    } else {
        lemma_asymmetric(list[0], x);
        let rest = list.drop_first();
        assert forall|k: int| 0 <= k < i - 1 implies precedes(#[trigger] rest[k], x) by {
            assert(rest[k] == list[k + 1]);
        }
        lemma_inserted_at(rest, x, i - 1);
        assert(seq![list[0]] + rest.insert(i - 1, x) =~= list.insert(i, x));
    }
}

proof fn lemma_inserted_same(list: Seq<Seq<char>>, x: Seq<char>, i: int)
    requires
        0 <= i < list.len(),
        forall|k: int| 0 <= k < i ==> precedes(#[trigger] list[k], x),
        list[i] == x,
    ensures
        inserted(list, x) == list,
    decreases i,
{
    if i > 0 {
        lemma_asymmetric(list[0], x);
        let rest = list.drop_first();
        assert forall|k: int| 0 <= k < i - 1 implies precedes(#[trigger] rest[k], x) by {
            assert(rest[k] == list[k + 1]);
        }
        lemma_inserted_same(rest, x, i - 1);
        assert(seq![list[0]] + rest =~= list);
    }
}

/// Puts `item` into a list in order, unless the list holds it already.
pub fn insert_sorted(list: &mut Vec<String>, item: String)
    requires
        strictly_sorted(texts(old(list)@)),
    ensures
        texts(final(list)@) == inserted(texts(old(list)@), item@),
        strictly_sorted(texts(final(list)@)),
        forall|x: Seq<char>|
            texts(final(list)@).contains(x) <==> (texts(old(list)@).contains(x) || x == item@),
{
    let key = chars_of(item.as_str());
    let ghost before = texts(list@);
    let mut i: usize = 0;
    let mut found = false;
    while i < list.len() && !found
        invariant
            i <= list.len(),
            key@ == item@,
            before == texts(list@),
            list@ == old(list)@,
            strictly_sorted(before),
            forall|k: int| 0 <= k < i ==> precedes(#[trigger] before[k], item@),
            found ==> i < list.len() && precedes(item@, before[i as int]),
        decreases list.len() - i, (if found { 0int } else { 1int }),
    {
        let here = chars_of(list[i].as_str());
        assert(before[i as int] == here@);
        match rank(&here, &key) {
            Rank::Before => {
                i += 1;
            },
            Rank::Same => {
                assert(before.contains(item@));
                proof {
                    lemma_inserted_same(before, item@, i as int);
                }
                return ;
            },
            Rank::After => {
                found = true;
            },
        }
    }
    list.insert(i, item);
    let ghost after = texts(list@);
    assert(after =~= before.insert(i as int, item@));
    proof {
        lemma_inserted_at(before, item@, i as int);
    }
    assert forall|a: int, b: int| 0 <= a < b < after.len() implies precedes(
        after[a],
        after[b],
    ) by {
        if b < i {
            assert(after[a] == before[a] && after[b] == before[b]);
        } else if b == i {
            assert(after[a] == before[a]);
        } else if a < i {
            assert(after[a] == before[a] && after[b] == before[b - 1]);
        } else if a == i {
            assert(after[b] == before[b - 1]);
            assert(found);
            if b - 1 > i {
                lemma_precedes_transitive(item@, before[i as int], before[b - 1]);
            }
        } else {
            assert(after[a] == before[a - 1] && after[b] == before[b - 1]);
        }
    }
    assert forall|x: Seq<char>| after.contains(x) <==> (before.contains(x) || x == item@) by {
        if after.contains(x) {
            let k = choose|k: int| 0 <= k < after.len() && after[k] == x;
            if k < i {
                assert(before[k] == x);
            } else if k > i {
                assert(before[k - 1] == x);
            }
        }
        if before.contains(x) {
            let k = choose|k: int| 0 <= k < before.len() && before[k] == x;
            if k < i {
                assert(after[k] == x);
            } else {
                assert(after[k + 1] == x);
            }
        }
        if x == item@ {
            assert(after[i as int] == x);
        }
    }
}

/// The texts of `items` in order, each once.
pub fn sorted_unique(items: Vec<String>) -> (out: Vec<String>)
    ensures
        texts(out@) == sorted_set(texts(items@)),
        strictly_sorted(texts(out@)),
        forall|x: Seq<char>| texts(out@).contains(x) <==> texts(items@).contains(x),
{
    let mut out: Vec<String> = Vec::new();
    let mut i: usize = 0;
    assert(texts(out@) =~= Seq::<Seq<char>>::empty());
    while i < items.len()
        invariant
            i <= items.len(),
            sorted_set(texts(items@)) == inserted_all(texts(out@), texts(items@), i as int),
            strictly_sorted(texts(out@)),
            forall|x: Seq<char>|
                texts(out@).contains(x) <==> texts(items@).take(i as int).contains(x),
        decreases items.len() - i,
    {
        let ghost before = texts(out@);
        let ghost seen = texts(items@).take(i as int);
        let item = items[i].clone();
        insert_sorted(&mut out, item);
        assert forall|x: Seq<char>| texts(out@).contains(x) <==> texts(items@).take(
            i + 1,
        ).contains(x) by {
            let next = texts(items@).take(i + 1);
            assert(next =~= seen.push(items@[i as int]@));
            if next.contains(x) {
                let k = choose|k: int| 0 <= k < next.len() && next[k] == x;
                if k < i {
                    assert(seen[k] == x);
                }
            }
            if seen.contains(x) {
                let k = choose|k: int| 0 <= k < seen.len() && seen[k] == x;
                assert(next[k] == x);
            }
            if x == items@[i as int]@ {
                assert(next[i as int] == x);
            }
        }
        i += 1;
    }
    assert(texts(items@).take(items.len() as int) =~= texts(items@));
    out
}

} // verus!
