//! Texts under keys, kept in the order of the keys.

use vstd::prelude::*;
use vstd::string::*;

use crate::order::{comes_before, lemma_precedes_total, lemma_precedes_transitive, precedes};
use crate::text::same;

verus! {

/// What a list of pairs holds.
pub open spec fn pair_texts(pairs: Seq<(String, String)>) -> Seq<(Seq<char>, Seq<char>)> {
    pairs.map_values(|p: (String, String)| (p.0@, p.1@))
}

/// Whether the keys come in order and none comes twice.
pub open spec fn ordered_keys(pairs: Seq<(Seq<char>, Seq<char>)>) -> bool {
    forall|i: int, j: int|
        0 <= i < j < pairs.len() ==> precedes((#[trigger] pairs[i]).0, (#[trigger] pairs[j]).0)
}

/// The text under a key.
pub open spec fn value_of(pairs: Seq<(Seq<char>, Seq<char>)>, key: Seq<char>) -> Option<Seq<char>>
    decreases pairs.len(),
{
    if pairs.len() == 0 {
        None
    } else if pairs.last().0 == key {
        Some(pairs.last().1)
    } else {
        value_of(pairs.drop_last(), key)
    }
}

/// The pairs with `value` under `key`, in place of what was there.
pub open spec fn with_pair(
    pairs: Seq<(Seq<char>, Seq<char>)>,
    key: Seq<char>,
    value: Seq<char>,
) -> Seq<(Seq<char>, Seq<char>)>
    decreases pairs.len(),
{
    if pairs.len() == 0 {
        seq![(key, value)]
    } else if pairs.last().0 == key {
        pairs.drop_last().push((key, value))
    } else if precedes(pairs.last().0, key) {
        pairs.push((key, value))
    } else {
        with_pair(pairs.drop_last(), key, value).push(pairs.last())
    }
}

/// The pairs of `old` with those of `new` put in one after the other.
pub open spec fn merged(
    old_pairs: Seq<(Seq<char>, Seq<char>)>,
    new_pairs: Seq<(Seq<char>, Seq<char>)>,
) -> Seq<(Seq<char>, Seq<char>)>
    decreases new_pairs.len(),
{
    if new_pairs.len() == 0 {
        old_pairs
    } else {
        with_pair(
            merged(old_pairs, new_pairs.drop_last()),
            new_pairs.last().0,
            new_pairs.last().1,
        )
    }
}

/// Puts a text under a key, in place of what was there.
pub fn put_pair(pairs: &mut Vec<(String, String)>, key: String, value: String)
    ensures
        pair_texts(final(pairs)@) == with_pair(pair_texts(old(pairs)@), key@, value@),
{
    let ghost all = pair_texts(pairs@);
    let mut i: usize = pairs.len();
    assert(all.take(i as int) =~= all);
    assert(with_pair(all.take(i as int), key@, value@) + all.skip(i as int) =~= with_pair(
        all,
        key@,
        value@,
    ));
    while i > 0 && comes_before(key.as_str(), pairs[i - 1].0.as_str())
        invariant
            i <= pairs@.len(),
            all == pair_texts(pairs@),
            with_pair(all, key@, value@) == with_pair(all.take(i as int), key@, value@) + all.skip(
                i as int,
            ),
        decreases i,
    {
        proof {
            let front = all.take(i as int);
            assert(front.drop_last() =~= all.take(i - 1));
            assert(front.last() == all[i - 1]);
            lemma_precedes_total(key@, all[i - 1].0);
            assert(with_pair(front, key@, value@) == with_pair(
                all.take(i - 1),
                key@,
                value@,
            ).push(all[i - 1]));
            assert(with_pair(all.take(i - 1), key@, value@).push(all[i - 1]) + all.skip(i as int)
                =~= with_pair(all.take(i - 1), key@, value@) + all.skip(i - 1));
        }
        i = i - 1;
    }
    proof {
        if i > 0 {
            assert(all.take(i as int).drop_last() =~= all.take(i - 1));
            assert(all.take(i as int).last() == all[i - 1]);
            lemma_precedes_total(key@, all[i - 1].0);
        }
    }
    let ghost before = pairs@;
    if i > 0 && same(pairs[i - 1].0.as_str(), key.as_str()) {
        pairs[i - 1] = (key, value);
        assert(pair_texts(pairs@) =~= all.take(i - 1).push((key@, value@)) + all.skip(i as int));
    } else {
        pairs.insert(i, (key, value));
        assert(pair_texts(pairs@) =~= all.take(i as int).push((key@, value@)) + all.skip(
            i as int,
        ));
        if i == 0 {
            assert(all.take(0) =~= Seq::empty());
            assert(seq![(key@, value@)] =~= all.take(0).push((key@, value@)));
        }
    }
}

/// Puts every text of `more` under its key.
pub fn merge_pairs(pairs: &mut Vec<(String, String)>, more: &Vec<(String, String)>)
    ensures
        pair_texts(final(pairs)@) == merged(pair_texts(old(pairs)@), pair_texts(more@)),
{
    let ghost start = pair_texts(pairs@);
    let ghost all = pair_texts(more@);
    assert(all.take(0) =~= Seq::empty());
    for i in 0..more.len()
        invariant
            all == pair_texts(more@),
            pair_texts(pairs@) == merged(start, all.take(i as int)),
    {
        assert(all.take(i + 1).drop_last() =~= all.take(i as int));
        assert(all.take(i + 1).last() == (more@[i as int].0@, more@[i as int].1@));
        put_pair(pairs, more[i].0.clone(), more[i].1.clone());
    }
    assert(all.take(all.len() as int) =~= all);
}

/// The text under a key is that of the last pair with the key, and there is none
/// where no pair has it.
pub proof fn law_value_is_the_last(pairs: Seq<(Seq<char>, Seq<char>)>, key: Seq<char>, i: int)
    ensures
        (forall|k: int| 0 <= k < pairs.len() ==> (#[trigger] pairs[k]).0 != key) <==> value_of(
            pairs,
            key,
        ) is None,
        0 <= i < pairs.len() && pairs[i].0 == key && (forall|k: int|
            i < k < pairs.len() ==> (#[trigger] pairs[k]).0 != key) ==> value_of(pairs, key)
            == Some(pairs[i].1),
    decreases pairs.len(),
{
    if pairs.len() > 0 {
        let front = pairs.drop_last();
        let n = pairs.len() - 1;
        law_value_is_the_last(front, key, i);
        assert(pairs[n] == pairs.last());
        assert forall|k: int| 0 <= k < n implies #[trigger] front[k] == pairs[k] by {}
        if value_of(pairs, key) is None {
            assert forall|k: int| 0 <= k < pairs.len() implies (#[trigger] pairs[k]).0 != key by {
                if k < n {
                    assert(front[k].0 != key);
                }
            }
        }
        if forall|k: int| 0 <= k < pairs.len() ==> (#[trigger] pairs[k]).0 != key {
            assert forall|k: int| 0 <= k < n implies (#[trigger] front[k]).0 != key by {
                assert(pairs[k].0 != key);
            }
        }
        if 0 <= i < n && pairs[i].0 == key && (forall|k: int|
            i < k < pairs.len() ==> (#[trigger] pairs[k]).0 != key) {
            assert forall|k: int| i < k < n implies (#[trigger] front[k]).0 != key by {
                assert(pairs[k].0 != key);
            }
            assert(pairs[n].0 != key);
        }
    }
}

/// A text that was put under a key is there, and what is under every other key
/// stays.
pub proof fn law_put_pair(
    pairs: Seq<(Seq<char>, Seq<char>)>,
    key: Seq<char>,
    value: Seq<char>,
    asked: Seq<char>,
)
    ensures
        value_of(with_pair(pairs, key, value), asked) == if asked == key {
            Some(value)
        } else {
            value_of(pairs, asked)
        },
    decreases pairs.len(),
{
    reveal_with_fuel(value_of, 2);
    let after = with_pair(pairs, key, value);
    if pairs.len() == 0 {
        assert(after.drop_last() =~= Seq::empty());
    } else if pairs.last().0 == key {
        assert(after.drop_last() =~= pairs.drop_last());
    } else if precedes(pairs.last().0, key) {
        assert(after.drop_last() =~= pairs);
    } else {
        law_put_pair(pairs.drop_last(), key, value, asked);
        assert(after.drop_last() =~= with_pair(pairs.drop_last(), key, value));
    }
}

/// After a merge, what is under a key is what the new pairs have there, and
/// where they have nothing, what was there before.
pub proof fn law_merge_prefers_new(
    old_pairs: Seq<(Seq<char>, Seq<char>)>,
    new_pairs: Seq<(Seq<char>, Seq<char>)>,
    asked: Seq<char>,
)
    ensures
        value_of(merged(old_pairs, new_pairs), asked) == match value_of(new_pairs, asked) {
            Some(value) => Some(value),
            None => value_of(old_pairs, asked),
        },
    decreases new_pairs.len(),
{
    if new_pairs.len() > 0 {
        law_merge_prefers_new(old_pairs, new_pairs.drop_last(), asked);
        law_put_pair(
            merged(old_pairs, new_pairs.drop_last()),
            new_pairs.last().0,
            new_pairs.last().1,
            asked,
        );
    }
}

proof fn lemma_with_pair_ordered(
    pairs: Seq<(Seq<char>, Seq<char>)>,
    key: Seq<char>,
    value: Seq<char>,
)
    requires
        ordered_keys(pairs),
    ensures
        ordered_keys(with_pair(pairs, key, value)),
        forall|i: int|
            0 <= i < with_pair(pairs, key, value).len() ==> (#[trigger] with_pair(
                pairs,
                key,
                value,
            )[i]).0 == key || exists|k: int|
                0 <= k < pairs.len() && (#[trigger] pairs[k]).0 == with_pair(pairs, key, value)[i].0,
    decreases pairs.len(),
{
    let after = with_pair(pairs, key, value);
    if pairs.len() > 0 {
        let front = pairs.drop_last();
        let last = pairs.last();
        assert(ordered_keys(front)) by {
            assert forall|i: int, j: int| 0 <= i < j < front.len() implies precedes(
                (#[trigger] front[i]).0,
                (#[trigger] front[j]).0,
            ) by {
                assert(precedes(pairs[i].0, pairs[j].0));
            }
        }
        if last.0 == key {
            assert forall|i: int, j: int| 0 <= i < j < after.len() implies precedes(
                (#[trigger] after[i]).0,
                (#[trigger] after[j]).0,
            ) by {
                assert(precedes(pairs[i].0, pairs[j].0));
            }
            assert forall|i: int| 0 <= i < after.len() implies (#[trigger] after[i]).0 == key
                || exists|k: int|
                0 <= k < pairs.len() && (#[trigger] pairs[k]).0 == after[i].0 by {
                assert(pairs[i].0 == after[i].0);
            }
        } else if precedes(last.0, key) {
            assert forall|i: int, j: int| 0 <= i < j < after.len() implies precedes(
                (#[trigger] after[i]).0,
                (#[trigger] after[j]).0,
            ) by {
                if j < pairs.len() {
                    assert(precedes(pairs[i].0, pairs[j].0));
                } else if i < pairs.len() - 1 {
                    assert(precedes(pairs[i].0, pairs[pairs.len() - 1].0));
                    lemma_precedes_transitive(pairs[i].0, last.0, key);
                }
            }
            assert forall|i: int| 0 <= i < after.len() implies (#[trigger] after[i]).0 == key
                || exists|k: int|
                0 <= k < pairs.len() && (#[trigger] pairs[k]).0 == after[i].0 by {
                if i < pairs.len() {
                    assert(pairs[i].0 == after[i].0);
                }
            }
        } else {
            lemma_with_pair_ordered(front, key, value);
            lemma_precedes_total(last.0, key);
            let inner = with_pair(front, key, value);
            assert forall|i: int, j: int| 0 <= i < j < after.len() implies precedes(
                (#[trigger] after[i]).0,
                (#[trigger] after[j]).0,
            ) by {
                assert(after[i] == inner[i]);
                if j < inner.len() {
                    assert(precedes(inner[i].0, inner[j].0));
                } else if inner[i].0 != key {
                    let k = choose|k: int|
                        0 <= k < front.len() && (#[trigger] front[k]).0 == inner[i].0;
                    assert(precedes(pairs[k].0, pairs[pairs.len() - 1].0));
                }
            }
            assert forall|i: int| 0 <= i < after.len() implies (#[trigger] after[i]).0 == key
                || exists|k: int|
                0 <= k < pairs.len() && (#[trigger] pairs[k]).0 == after[i].0 by {
                if i < inner.len() {
                    assert(after[i] == inner[i]);
                    if inner[i].0 != key {
                        let k = choose|k: int|
                            0 <= k < front.len() && (#[trigger] front[k]).0 == inner[i].0;
                        assert(pairs[k].0 == after[i].0);
                    }
                } else {
                    assert(pairs[pairs.len() - 1].0 == after[i].0);
                }
            }
        }
    }
}

/// A merge keeps the keys in order.
pub proof fn law_merge_keeps_order(
    old_pairs: Seq<(Seq<char>, Seq<char>)>,
    new_pairs: Seq<(Seq<char>, Seq<char>)>,
)
    requires
        ordered_keys(old_pairs),
    ensures
        ordered_keys(merged(old_pairs, new_pairs)),
    decreases new_pairs.len(),
{
    if new_pairs.len() > 0 {
        law_merge_keeps_order(old_pairs, new_pairs.drop_last());
        lemma_with_pair_ordered(
            merged(old_pairs, new_pairs.drop_last()),
            new_pairs.last().0,
            new_pairs.last().1,
        );
    }
}

} // verus!
