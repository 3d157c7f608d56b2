//! The memory manager's lists: the categories under which memories are
//! shown, the memories of one category, the memory the radio sits on, and
//! whether the edit form is filled in.

use vstd::prelude::*;
use crate::records::DbMemoryEntry;
use crate::text::{chars_of, string_from_chars, trim_chars, trimmed};

verus! {

/// Lexicographic order on character sequences (the order of `String`s):
/// `a` comes strictly before `b`.
pub open spec fn seq_less(a: Seq<char>, b: Seq<char>) -> bool
    decreases a.len(),
{
    if a.len() == 0 {
        b.len() > 0
    } else if b.len() == 0 {
        false
    } else if a[0] != b[0] {
        a[0] < b[0]
    } else {
        seq_less(a.drop_first(), b.drop_first())
    }
}

/// No sequence comes before itself.
pub proof fn lemma_seq_less_irreflexive(a: Seq<char>)
    ensures
        !seq_less(a, a),
    decreases a.len(),
{
    if a.len() > 0 {
        lemma_seq_less_irreflexive(a.drop_first());
    }
}

/// The order is transitive.
pub proof fn lemma_seq_less_transitive(a: Seq<char>, b: Seq<char>, c: Seq<char>)
    requires
        seq_less(a, b),
        seq_less(b, c),
    ensures
        seq_less(a, c),
    decreases a.len(),
{
    if a.len() > 0 && b.len() > 0 && c.len() > 0 && a[0] == b[0] && b[0] == c[0] {
        lemma_seq_less_transitive(a.drop_first(), b.drop_first(), c.drop_first());
    }
}

/// Two different sequences are ordered one way or the other.
pub proof fn lemma_seq_less_total(a: Seq<char>, b: Seq<char>)
    requires
        a != b,
    ensures
        seq_less(a, b) || seq_less(b, a),
    decreases a.len(),
{
    if a.len() == 0 && b.len() == 0 {
        assert(a =~= b);
    } else if a.len() == 0 || b.len() == 0 {
    } else if a[0] != b[0] {
    } else {
        if a.drop_first() == b.drop_first() {
            assert(a =~= seq![a[0]] + a.drop_first());
            assert(b =~= seq![b[0]] + b.drop_first());
        }
        lemma_seq_less_total(a.drop_first(), b.drop_first());
    }
}

/// Whether `a` comes strictly before `b`.
pub fn chars_less(a: &[char], b: &[char]) -> (less: bool)
    ensures
        less == seq_less(a@, b@),
{
    let mut i: usize = 0;
    assert(a@.skip(0) =~= a@ && b@.skip(0) =~= b@);
    while i < a.len() && i < b.len()
        invariant
            i <= a@.len(),
            i <= b@.len(),
            seq_less(a@, b@) == seq_less(a@.skip(i as int), b@.skip(i as int)),
        decreases a@.len() - i,
    {
        let ghost sa = a@.skip(i as int);
        let ghost sb = b@.skip(i as int);
        assert(sa[0] == a@[i as int] && sb[0] == b@[i as int]);
        if a[i] != b[i] {
            return a[i] < b[i];
        }
        assert(sa.drop_first() =~= a@.skip(i + 1));
        assert(sb.drop_first() =~= b@.skip(i + 1));
        i = i + 1;
    }
    assert(a@.skip(i as int).len() == 0 || b@.skip(i as int).len() == 0);
    i == a.len() && i < b.len()
}

/// Whether a list of sequences is in strictly increasing order (hence free
/// of repeats).
pub open spec fn strictly_sorted(s: Seq<Seq<char>>) -> bool {
    forall|i: int, j: int| 0 <= i < j < s.len() ==> seq_less(#[trigger] s[i], #[trigger] s[j])
}

/// Whether some memory of a list is filed under `category`.
pub open spec fn has_category(memories: Seq<DbMemoryEntry>, category: Seq<char>) -> bool {
    exists|k: int| 0 <= k < memories.len() && (#[trigger] memories[k]).category@ == category
}

/// The characters of a list of strings.
pub open spec fn names_view(s: Seq<String>) -> Seq<Seq<char>> {
    s.map_values(|x: String| x@)
}

/// The categories under which the memories are shown: each category once,
/// in increasing order.
pub fn memory_categories(memories: &[DbMemoryEntry]) -> (categories: Vec<String>)
    ensures
        strictly_sorted(names_view(categories@)),
        forall|c: Seq<char>| names_view(categories@).contains(c) <==> has_category(memories@, c),
{
    let mut cats: Vec<Vec<char>> = Vec::new();
    let mut k: usize = 0;
    while k < memories.len()
        invariant
            k <= memories@.len(),
            strictly_sorted(cats@.map_values(|v: Vec<char>| v@)),
            forall|c: Seq<char>|
                cats@.map_values(|v: Vec<char>| v@).contains(c) <==> has_category(memories@.take(k as int), c),
        decreases memories@.len() - k,
    {
        let c = chars_of(memories[k].category.as_str());
        let ghost view = cats@.map_values(|v: Vec<char>| v@);
        let mut i: usize = 0;
        while i < cats.len() && chars_less(cats[i].as_slice(), c.as_slice())
            invariant
                i <= cats@.len(),
                view == cats@.map_values(|v: Vec<char>| v@),
                forall|j: int| 0 <= j < i ==> seq_less(#[trigger] view[j], c@),
            decreases cats@.len() - i,
        {
            assert(view[i as int] == cats@[i as int]@);
            i = i + 1;
        }
        let same = i < cats.len() && !chars_less(c.as_slice(), cats[i].as_slice());
        proof {
            assert forall|d: Seq<char>| has_category(memories@.take(k + 1), d) <==> (has_category(
                memories@.take(k as int),
                d,
            ) || d == c@) by {
                if has_category(memories@.take(k + 1), d) {
                    let w = choose|w: int|
                        0 <= w < memories@.take(k + 1).len() && (#[trigger] memories@.take(k + 1)[w]).category@
                            == d;
                    if w < k {
                        assert(memories@.take(k as int)[w] == memories@.take(k + 1)[w]);
                    }
                }
                if has_category(memories@.take(k as int), d) {
                    let w = choose|w: int|
                        0 <= w < memories@.take(k as int).len() && (#[trigger] memories@.take(k as int)[w]).category@
                            == d;
                    assert(memories@.take(k + 1)[w] == memories@.take(k as int)[w]);
                }
                if d == c@ {
                    assert(memories@.take(k + 1)[k as int] == memories@[k as int]);
                }
            }
        }
        if same {
            proof {
                assert(view[i as int] == cats@[i as int]@);
                if view[i as int] != c@ {
                    lemma_seq_less_total(view[i as int], c@);
                }
                assert(view.contains(c@));
                assert forall|d: Seq<char>| view.contains(d) <==> has_category(memories@.take(k + 1), d) by {
                    assert(view.contains(d) <==> has_category(memories@.take(k as int), d));
                }
            }
        } else {
            proof {
                if i < cats@.len() {
                    assert(view[i as int] == cats@[i as int]@);
                    lemma_seq_less_irreflexive(c@);
                }
            }
            cats.insert(i, c);
            proof {
                let nv = cats@.map_values(|v: Vec<char>| v@);
                assert(nv =~= view.insert(i as int, c@));
                assert forall|a: int, b: int| 0 <= a < b < nv.len() implies seq_less(
                    #[trigger] nv[a],
                    #[trigger] nv[b],
                ) by {
                    if b < i {
                    } else if a < i && b == i {
                    } else if a < i && b > i {
                        assert(nv[b] == view[b - 1]);
                        if b - 1 > i {
                            assert(seq_less(view[i as int], view[b - 1]));
                            lemma_seq_less_transitive(view[a], c@, view[i as int]);
                            lemma_seq_less_transitive(view[a], view[i as int], view[b - 1]);
                        } else {
                            lemma_seq_less_transitive(view[a], c@, view[i as int]);
                        }
                    } else if a == i {
                        assert(nv[b] == view[b - 1]);
                        if b - 1 > i {
                            lemma_seq_less_transitive(c@, view[i as int], view[b - 1]);
                        }
                    } else {
                        assert(nv[a] == view[a - 1] && nv[b] == view[b - 1]);
                    }
                }
                assert forall|d: Seq<char>| nv.contains(d) <==> (view.contains(d) || d == c@) by {
                    if nv.contains(d) {
                        let w = choose|w: int| 0 <= w < nv.len() && nv[w] == d;
                        if w < i {
                            assert(view[w] == d);
                        } else if w > i {
                            assert(view[w - 1] == d);
                        }
                    }
                    if view.contains(d) {
                        let w = choose|w: int| 0 <= w < view.len() && view[w] == d;
                        if w < i {
                            assert(nv[w] == d);
                        } else {
                            assert(nv[w + 1] == d);
                        }
                    }
                    if d == c@ {
                        assert(nv[i as int] == d);
                    }
                }
                assert forall|d: Seq<char>| nv.contains(d) <==> has_category(memories@.take(k + 1), d) by {
                    assert(view.contains(d) <==> has_category(memories@.take(k as int), d));
                }
            }
        }
        k = k + 1;
    }
    assert(memories@.take(memories@.len() as int) =~= memories@);
    let mut categories: Vec<String> = Vec::new();
    let mut j: usize = 0;
    while j < cats.len()
        invariant
            j <= cats@.len(),
            names_view(categories@) == cats@.map_values(|v: Vec<char>| v@).take(j as int),
        decreases cats@.len() - j,
    {
        let s = string_from_chars(cats[j].as_slice());
        assert(s@ == cats@.map_values(|v: Vec<char>| v@)[j as int]);
        let ghost before = categories@;
        categories.push(s);
        assert(names_view(categories@) =~= names_view(before).push(s@));
        j = j + 1;
        assert(names_view(categories@) =~= cats@.map_values(|v: Vec<char>| v@).take(j as int));
    }
    assert(cats@.map_values(|v: Vec<char>| v@).take(cats@.len() as int) =~= cats@.map_values(
        |v: Vec<char>| v@,
    ));
    categories
}

/// The positions, in the list, of the memories filed under `category`, in
/// list order.
pub fn memories_in_category(memories: &[DbMemoryEntry], category: &str) -> (positions: Vec<usize>)
    ensures
        forall|i: int, j: int| 0 <= i < j < positions@.len() ==> positions@[i] < positions@[j],
        forall|i: int|
            0 <= i < positions@.len() ==> #[trigger] positions@[i] < memories@.len()
                && memories@[positions@[i] as int].category@ == category@,
        forall|k: int|
            0 <= k < memories@.len() && (#[trigger] memories@[k]).category@ == category@
                ==> positions@.contains(k as usize),
{
    let wanted = chars_of(category);
    let mut positions: Vec<usize> = Vec::new();
    let mut k: usize = 0;
    while k < memories.len()
        invariant
            k <= memories@.len(),
            wanted@ == category@,
            forall|i: int, j: int| 0 <= i < j < positions@.len() ==> positions@[i] < positions@[j],
            forall|i: int| 0 <= i < positions@.len() ==> #[trigger] positions@[i] < k,
            forall|i: int|
                0 <= i < positions@.len() ==> memories@[(#[trigger] positions@[i]) as int].category@
                    == category@,
            forall|m: int|
                0 <= m < k && (#[trigger] memories@[m]).category@ == category@ ==> positions@.contains(
                    m as usize,
                ),
        decreases memories@.len() - k,
    {
        let c = chars_of(memories[k].category.as_str());
        if crate::records::chars_equal(c.as_slice(), wanted.as_slice()) {
            let ghost before = positions@;
            positions.push(k);
            assert forall|m: int|
                0 <= m < k + 1 && (#[trigger] memories@[m]).category@ == category@ implies positions@.contains(
                m as usize,
            ) by {
                if m < k {
                    let w = choose|w: int| 0 <= w < before.len() && before[w] == m as usize;
                    assert(positions@[w] == m as usize);
                } else {
                    assert(positions@[before.len() as int] == k);
                }
            }
        }
        k = k + 1;
    }
    positions
}

/// Whether two frequencies lie within `tolerance` Hz of each other.
pub open spec fn within(a: u64, b: u64, tolerance: u64) -> bool {
    -(tolerance as int) <= a - b <= tolerance
}

/// Whether the radio sits on a memory: within 1 kHz of its frequency.
pub fn is_near_memory(freq: u64, memory_freq: u64) -> (near: bool)
    ensures
        near == within(freq, memory_freq, 1000),
{
    if freq >= memory_freq {
        freq - memory_freq <= 1000
    } else {
        memory_freq - freq <= 1000
    }
}

/// The positions, in list order, of the memories within 2 kHz of the
/// frequency (shown among the probable stations).
pub fn memories_near(memories: &[DbMemoryEntry], freq: u64) -> (positions: Vec<usize>)
    ensures
        forall|i: int, j: int| 0 <= i < j < positions@.len() ==> positions@[i] < positions@[j],
        forall|i: int|
            0 <= i < positions@.len() ==> #[trigger] positions@[i] < memories@.len()
                && within(memories@[positions@[i] as int].frequency, freq, 2000),
        forall|k: int|
            0 <= k < memories@.len() && within((#[trigger] memories@[k]).frequency, freq, 2000)
                ==> positions@.contains(k as usize),
{
    let mut positions: Vec<usize> = Vec::new();
    let mut k: usize = 0;
    while k < memories.len()
        invariant
            k <= memories@.len(),
            forall|i: int, j: int| 0 <= i < j < positions@.len() ==> positions@[i] < positions@[j],
            forall|i: int| 0 <= i < positions@.len() ==> #[trigger] positions@[i] < k,
            forall|i: int|
                0 <= i < positions@.len() ==> within(
                    memories@[(#[trigger] positions@[i]) as int].frequency,
                    freq,
                    2000,
                ),
            forall|m: int|
                0 <= m < k && within((#[trigger] memories@[m]).frequency, freq, 2000) ==> positions@.contains(
                    m as usize,
                ),
        decreases memories@.len() - k,
    {
        let f = memories[k].frequency;
        let near = if f >= freq { f - freq <= 2000 } else { freq - f <= 2000 };
        if near {
            let ghost before = positions@;
            positions.push(k);
            assert forall|m: int|
                0 <= m < k + 1 && within((#[trigger] memories@[m]).frequency, freq, 2000) implies positions@.contains(
                m as usize,
            ) by {
                if m < k {
                    let w = choose|w: int| 0 <= w < before.len() && before[w] == m as usize;
                    assert(positions@[w] == m as usize);
                } else {
                    assert(positions@[before.len() as int] == k);
                }
            }
        }
        k = k + 1;
    }
    positions
}

/// Whether the memory edit form names a category and a memory: neither may
/// be blank.
pub fn memory_form_named(category: &str, name: &str) -> (ok: bool)
    ensures
        ok == (trimmed(category@).len() > 0 && trimmed(name@).len() > 0),
{
    let c = chars_of(category);
    let n = chars_of(name);
    trim_chars(c.as_slice()).len() > 0 && trim_chars(n.as_slice()).len() > 0
}

} // verus!
