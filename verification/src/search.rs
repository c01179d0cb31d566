//! Finding one text in another.

use vstd::prelude::*;

use crate::text::chars_of;

verus! {

/// Whether `pat` stands in `text` at position `i`.
pub open spec fn occurs_at(text: Seq<char>, pat: Seq<char>, i: int) -> bool {
    &&& 0 <= i
    &&& i + pat.len() <= text.len()
    &&& text.subrange(i, i + pat.len()) == pat
}

/// Whether `pat` stands somewhere in `text`.
pub open spec fn occurs(text: Seq<char>, pat: Seq<char>) -> bool {
    exists|i: int| occurs_at(text, pat, i)
}

/// Whether `pat` stands in `text` at position `i`.
pub fn stands_at(text: &Vec<char>, pat: &Vec<char>, i: usize) -> (answer: bool)
    requires
        i + pat.len() <= text.len(),
    ensures
        answer == occurs_at(text@, pat@, i as int),
{
    for k in 0..pat.len()
        invariant
            i + pat.len() <= text.len(),
            forall|m: int| 0 <= m < k ==> text@[i + m] == pat@[m],
    {
        if text[i + k] != pat[k] {
            assert(text@.subrange(i as int, i + pat@.len())[k as int] == text@[i + k]);
            return false;
        }
    }
    assert(text@.subrange(i as int, i + pat@.len()) == pat@);
    true
}

/// The first position from `from` on at which `pat` stands in `text`.
pub fn find_from(text: &Vec<char>, pat: &Vec<char>, from: usize) -> (at: Option<usize>)
    requires
        from <= text.len(),
    ensures
        at matches Some(i) ==> i >= from && occurs_at(text@, pat@, i as int),
        at matches Some(i) ==> forall|k: int| from <= k < i ==> !occurs_at(text@, pat@, k),
        at is None ==> forall|k: int| from <= k ==> !occurs_at(text@, pat@, k),
{
    let mut i: usize = from;
    while pat.len() <= text.len() - i
        invariant
            from <= i <= text.len(),
            forall|k: int| from <= k < i ==> !occurs_at(text@, pat@, k),
        decreases text.len() - i,
    {
        if stands_at(text, pat, i) {
            return Some(i);
        }
        if i == text.len() {
            return None;
        }
        i = i + 1;
    }
    None
}

/// Whether `pat` stands somewhere in `text`.
pub fn contains(text: &str, pat: &str) -> (answer: bool)
    ensures
        answer == occurs(text@, pat@),
{
    let t = chars_of(text);
    let q = chars_of(pat);
    match find_from(&t, &q, 0) {
        Some(at) => {
            assert(occurs_at(text@, pat@, at as int));
            true
        },
        None => false,
    }
}

} // verus!
