//! The order of texts by their characters, and lists kept in that order.

use vstd::prelude::*;
use vstd::string::*;

use crate::text::{chars_of, texts};

verus! {

/// Whether `a` comes before `b`: at the first place where they differ, `a` has
/// the smaller character or has ended.
pub open spec fn precedes(a: Seq<char>, b: Seq<char>) -> bool
    decreases a.len(),
{
    if b.len() == 0 {
        false
    } else if a.len() == 0 {
        true
    } else if a.first() != b.first() {
        a.first() < b.first()
    } else {
        precedes(a.drop_first(), b.drop_first())
    }
}

/// Whether `a` comes before `b`.
pub fn comes_before(a: &str, b: &str) -> (answer: bool)
    ensures
        answer == precedes(a@, b@),
{
    let x = chars_of(a);
    let y = chars_of(b);
    let mut i: usize = 0;
    assert(a@.skip(0) == a@);
    assert(b@.skip(0) == b@);
    while i < x.len() && i < y.len()
        invariant
            x@ == a@,
            y@ == b@,
            i <= x.len(),
            i <= y.len(),
            precedes(a@, b@) == precedes(a@.skip(i as int), b@.skip(i as int)),
        decreases x.len() - i,
    {
        if x[i] != y[i] {
            return x[i] < y[i];
        }
        assert(a@.skip(i as int).drop_first() == a@.skip(i + 1));
        assert(b@.skip(i as int).drop_first() == b@.skip(i + 1));
        i = i + 1;
    }
    i < y.len()
}

/// Of two different texts exactly one comes before the other, and no text comes
/// before itself.
pub proof fn lemma_precedes_total(a: Seq<char>, b: Seq<char>)
    ensures
        a == b ==> !precedes(a, b),
        a != b ==> precedes(a, b) != precedes(b, a),
    decreases a.len(),
{
    if a.len() > 0 && b.len() > 0 && a.first() == b.first() {
        lemma_precedes_total(a.drop_first(), b.drop_first());
        if a.drop_first() == b.drop_first() {
            assert(a == seq![a.first()] + a.drop_first());
            assert(b == seq![b.first()] + b.drop_first());
        }
    } else if a.len() == 0 && b.len() == 0 {
        assert(a == b);
    }
}

/// The order is transitive.
pub proof fn lemma_precedes_transitive(a: Seq<char>, b: Seq<char>, c: Seq<char>)
    requires
        precedes(a, b),
        precedes(b, c),
    ensures
        precedes(a, c),
    decreases a.len(),
{
    if a.len() > 0 && a.first() == b.first() && b.first() == c.first() {
        lemma_precedes_transitive(a.drop_first(), b.drop_first(), c.drop_first());
    }
}

// ---------------------------------------------------------------------------
// Sorted lists
// ---------------------------------------------------------------------------

/// Whether no text of the list comes before an earlier one.
pub open spec fn ascending(list: Seq<Seq<char>>) -> bool {
    forall|i: int, j: int| 0 <= i < j < list.len() ==> !precedes(list[j], list[i])
}

/// Whether every text of the list comes before the next: sorted, and nothing
/// twice.
pub open spec fn strictly_ascending(list: Seq<Seq<char>>) -> bool {
    forall|i: int, j: int| 0 <= i < j < list.len() ==> precedes(list[i], list[j])
}

/// The list with `x` put before the texts at its end that come after `x`.
pub open spec fn inserted(list: Seq<Seq<char>>, x: Seq<char>) -> Seq<Seq<char>>
    decreases list.len(),
{
    if list.len() > 0 && precedes(x, list.last()) {
        inserted(list.drop_last(), x).push(list.last())
    } else {
        list.push(x)
    }
}

/// The texts of `list` in order.
pub open spec fn sorted(list: Seq<Seq<char>>) -> Seq<Seq<char>>
    decreases list.len(),
{
    if list.len() == 0 {
        Seq::empty()
    } else {
        inserted(sorted(list.drop_last()), list.last())
    }
}

/// The place at which `inserted` puts `x`.
pub open spec fn insertion_place(list: Seq<Seq<char>>, x: Seq<char>) -> int
    decreases list.len(),
{
    if list.len() > 0 && precedes(x, list.last()) {
        insertion_place(list.drop_last(), x)
    } else {
        list.len() as int
    }
}

/// `inserted` puts one text at its place and moves nothing else.
pub proof fn lemma_inserted_at_place(list: Seq<Seq<char>>, x: Seq<char>)
    ensures
        0 <= insertion_place(list, x) <= list.len(),
        inserted(list, x) == list.insert(insertion_place(list, x), x),
        forall|i: int| insertion_place(list, x) <= i < list.len() ==> precedes(x, list[i]),
        insertion_place(list, x) > 0 ==> !precedes(x, list[insertion_place(list, x) - 1]),
    decreases list.len(),
{
    let p = insertion_place(list, x);
    if list.len() > 0 && precedes(x, list.last()) {
        let front = list.drop_last();
        lemma_inserted_at_place(front, x);
        assert(front.insert(p, x).push(list.last()) == list.insert(p, x));
        assert forall|i: int| p <= i < list.len() implies precedes(x, list[i]) by {
            if i < front.len() {
                assert(front[i] == list[i]);
            }
        }
    } else {
        assert(list.push(x) == list.insert(p, x));
    }
}

/// Inserting into a sorted list keeps it sorted.
pub proof fn lemma_inserted_ascending(list: Seq<Seq<char>>, x: Seq<char>)
    requires
        ascending(list),
    ensures
        ascending(inserted(list, x)),
{
    lemma_inserted_at_place(list, x);
    let p = insertion_place(list, x);
    let out = inserted(list, x);
    assert forall|i: int, j: int| 0 <= i < j < out.len() implies !precedes(out[j], out[i]) by {
        if j == p {
            lemma_precedes_total(x, list[i]);
            if precedes(x, list[i]) {
                if i < p - 1 {
                    assert(!precedes(list[p - 1], list[i]));
                    lemma_precedes_total(list[p - 1], list[i]);
                    if list[p - 1] != list[i] {
                        lemma_precedes_transitive(x, list[i], list[p - 1]);
                    }
                }
            }
        } else if i == p {
            lemma_precedes_total(x, list[j - 1]);
        } else {
            let a = if i < p {
                i
            } else {
                i - 1
            };
            let b = if j < p {
                j
            } else {
                j - 1
            };
            assert(!precedes(list[b], list[a]));
        }
    }
}

/// Sorting gives a list in order.
pub proof fn law_sorted_ascending(list: Seq<Seq<char>>)
    ensures
        ascending(sorted(list)),
    decreases list.len(),
{
    if list.len() > 0 {
        law_sorted_ascending(list.drop_last());
        lemma_inserted_ascending(sorted(list.drop_last()), list.last());
    }
}

/// Sorting keeps every text, as often as it was there.
pub proof fn law_sorted_keeps_all(list: Seq<Seq<char>>)
    ensures
        sorted(list).to_multiset() == list.to_multiset(),
    decreases list.len(),
{
    broadcast use vstd::seq_lib::group_to_multiset_ensures;

    if list.len() > 0 {
        let front = list.drop_last();
        law_sorted_keeps_all(front);
        lemma_inserted_at_place(sorted(front), list.last());
        assert(front.push(list.last()) == list);
    } else {
        assert(list == Seq::<Seq<char>>::empty());
    }
}

/// The texts of a list in order.
pub fn sort_texts(list: Vec<String>) -> (out: Vec<String>)
    ensures
        texts(out@) == sorted(texts(list@)),
{
    let mut out: Vec<String> = Vec::new();
    let ghost all = texts(list@);
    assert(texts(out@) == sorted(all.take(0)));
    for i in 0..list.len()
        invariant
            all == texts(list@),
            texts(out@) == sorted(all.take(i as int)),
    {
        assert(all.take(i + 1).drop_last() == all.take(i as int));
        assert(all.take(i + 1).last() == list@[i as int]@);
        insert_text(&mut out, list[i].clone());
    }
    assert(all.take(all.len() as int) == all);
    out
}

/// Puts `x` before the texts at the end of the list that come after it.
pub fn insert_text(list: &mut Vec<String>, x: String)
    ensures
        texts(final(list)@) == inserted(texts(old(list)@), x@),
{
    let ghost all = texts(list@);
    let mut p: usize = list.len();
    assert(all.take(p as int) == all);
    while p > 0 && comes_before(x.as_str(), list[p - 1].as_str())
        invariant
            p <= list.len(),
            list@ == old(list)@,
            all == texts(list@),
            insertion_place(all, x@) == insertion_place(all.take(p as int), x@),
        decreases p,
    {
        assert(all.take(p as int).drop_last() == all.take(p - 1));
        assert(all.take(p as int).last() == list@[p - 1]@);
        p = p - 1;
    }
    proof {
        if p > 0 {
            assert(all.take(p as int).last() == list@[p - 1]@);
        }
        assert(insertion_place(all, x@) == p);
        lemma_inserted_at_place(all, x@);
    }
    list.insert(p, x);
    assert(texts(list@) == all.insert(p as int, x@));
}

// ---------------------------------------------------------------------------
// Sorted lists in which nothing occurs twice
// ---------------------------------------------------------------------------

/// The list with `x` added in order, unless it is there.
pub open spec fn with_text(list: Seq<Seq<char>>, x: Seq<char>) -> Seq<Seq<char>> {
    if list.contains(x) {
        list
    } else {
        inserted(list, x)
    }
}

/// The distinct texts of `list` in order.
pub open spec fn distinct_sorted(list: Seq<Seq<char>>) -> Seq<Seq<char>>
    decreases list.len(),
{
    if list.len() == 0 {
        Seq::empty()
    } else {
        with_text(distinct_sorted(list.drop_last()), list.last())
    }
}

/// Adding a text to a list without repetitions in order gives such a list, and
/// adds just that text.
pub proof fn lemma_with_text(list: Seq<Seq<char>>, x: Seq<char>)
    requires
        strictly_ascending(list),
    ensures
        strictly_ascending(with_text(list, x)),
        forall|y: Seq<char>| #[trigger]
            with_text(list, x).contains(y) <==> list.contains(y) || y == x,
{
    let out = with_text(list, x);
    if !list.contains(x) {
        lemma_inserted_at_place(list, x);
        let p = insertion_place(list, x);
        assert forall|i: int, j: int| 0 <= i < j < out.len() implies precedes(out[i], out[j]) by {
            if j == p {
                lemma_precedes_total(x, list[i]);
                assert(list.contains(list[i]));
                if precedes(x, list[i]) && i < p - 1 {
                    assert(precedes(list[i], list[p - 1]));
                    lemma_precedes_transitive(x, list[i], list[p - 1]);
                }
            } else if i == p {
                assert(precedes(x, list[j - 1]));
            } else {
                let a = if i < p {
                    i
                } else {
                    i - 1
                };
                let b = if j < p {
                    j
                } else {
                    j - 1
                };
                assert(precedes(list[a], list[b]));
            }
        }
        assert forall|y: Seq<char>| #[trigger] out.contains(y) <==> list.contains(y) || y == x by {
            if list.contains(y) {
                let k = list.index_of(y);
                if k < p {
                    assert(out[k] == y);
                } else {
                    assert(out[k + 1] == y);
                }
            }
            if y == x {
                assert(out[p] == x);
            }
            if out.contains(y) && y != x {
                let k = out.index_of(y);
                if k < p {
                    assert(list[k] == y);
                } else {
                    assert(list[k - 1] == y);
                }
            }
        }
    }
}

/// The distinct texts of a list in order: sorted, nothing twice, and the same
/// texts as in the list.
pub proof fn law_distinct_sorted(list: Seq<Seq<char>>)
    ensures
        strictly_ascending(distinct_sorted(list)),
        forall|y: Seq<char>| #[trigger] distinct_sorted(list).contains(y) <==> list.contains(y),
    decreases list.len(),
{
    if list.len() > 0 {
        let front = list.drop_last();
        law_distinct_sorted(front);
        lemma_with_text(distinct_sorted(front), list.last());
        assert forall|y: Seq<char>| #[trigger]
            distinct_sorted(list).contains(y) <==> list.contains(y) by {
            if list.contains(y) {
                let k = list.index_of(y);
                if k < front.len() {
                    assert(front[k] == y);
                }
            }
            if front.contains(y) {
                let k = front.index_of(y);
                assert(list[k] == y);
            }
            assert(list[list.len() - 1] == list.last());
        }
    }
}

/// Whether the list holds `x`.
pub fn holds_text(list: &Vec<String>, x: &str) -> (answer: bool)
    ensures
        answer == texts(list@).contains(x@),
{
    for i in 0..list.len()
        invariant
            forall|k: int| 0 <= k < i ==> texts(list@)[k] != x@,
    {
        if crate::text::same(list[i].as_str(), x) {
            assert(texts(list@)[i as int] == x@);
            return true;
        }
    }
    false
}

/// Adds `x` in order, unless it is there.
pub fn add_text(list: &mut Vec<String>, x: String)
    ensures
        texts(final(list)@) == with_text(texts(old(list)@), x@),
{
    if !holds_text(list, x.as_str()) {
        insert_text(list, x);
    }
}

} // verus!
