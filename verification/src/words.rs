//! Words: the runs of characters between white space.

use vstd::prelude::*;
use vstd::string::*;

use crate::lines::join;
use crate::text::{chars_of, is_space, is_whitespace, texts};

verus! {

/// The parts of `s` between white space, of which some may be empty: one more
/// than there are white space characters.
pub open spec fn pieces(s: Seq<char>) -> Seq<Seq<char>>
    decreases s.len(),
{
    if s.len() == 0 {
        seq![Seq::<char>::empty()]
    } else {
        let before = pieces(s.drop_last());
        if is_space(s.last()) {
            before.push(Seq::<char>::empty())
        } else {
            before.update(before.len() - 1, before.last().push(s.last()))
        }
    }
}

/// The texts of `list` that are not empty.
pub open spec fn without_empty(list: Seq<Seq<char>>) -> Seq<Seq<char>>
    decreases list.len(),
{
    if list.len() == 0 {
        Seq::empty()
    } else if list.last().len() == 0 {
        without_empty(list.drop_last())
    } else {
        without_empty(list.drop_last()).push(list.last())
    }
}

/// The words of `s`.
pub open spec fn words(s: Seq<char>) -> Seq<Seq<char>> {
    without_empty(pieces(s))
}

proof fn lemma_pieces_nonempty(s: Seq<char>)
    ensures
        pieces(s).len() >= 1,
    decreases s.len(),
{
    if s.len() > 0 {
        lemma_pieces_nonempty(s.drop_last());
    }
}

/// The words of a string.
pub fn words_of(s: &str) -> (out: Vec<String>)
    ensures
        texts(out@) == words(s@),
{
    let chars = chars_of(s);
    let mut out: Vec<String> = Vec::new();
    let mut word = String::new();
    proof {
        reveal_strlit("");
        assert(s@.take(0) =~= Seq::empty());
        assert(pieces(s@.take(0)) =~= seq![Seq::<char>::empty()]);
        assert(pieces(s@.take(0)).drop_last() =~= Seq::empty());
        assert(texts(out@) =~= without_empty(pieces(s@.take(0)).drop_last()));
    }
    for i in 0..chars.len()
        invariant
            chars@ == s@,
            word@ == pieces(s@.take(i as int)).last(),
            texts(out@) == without_empty(pieces(s@.take(i as int)).drop_last()),
    {
        let c = chars[i];
        let ghost before = pieces(s@.take(i as int));
        proof {
            lemma_pieces_nonempty(s@.take(i as int));
            assert(s@.take(i + 1).drop_last() =~= s@.take(i as int));
            assert(s@.take(i + 1).last() == c);
        }
        if is_whitespace(c) {
            let ghost done = out@;
            assert(pieces(s@.take(i + 1)).drop_last() =~= before);
            if word.as_str().is_empty() {
                assert(without_empty(before) == without_empty(before.drop_last()));
            } else {
                assert(without_empty(before) == without_empty(before.drop_last()).push(word@));
                out.push(word);
                assert(texts(out@) =~= texts(done).push(word@));
            }
            word = String::new();
            assert(word@ =~= Seq::empty());
        } else {
            assert(pieces(s@.take(i + 1)).drop_last() =~= before.drop_last());
            word.push(c);
        }
    }
    assert(s@.take(s@.len() as int) =~= s@);
    proof {
        lemma_pieces_nonempty(s@);
    }
    if !word.as_str().is_empty() {
        let ghost done = out@;
        out.push(word);
        assert(texts(out@) =~= texts(done).push(word@));
    }
    out
}

/// Whether `s` is a word: it is not empty and has no white space.
pub open spec fn word(s: Seq<char>) -> bool {
    s.len() > 0 && forall|i: int| 0 <= i < s.len() ==> !is_space(#[trigger] s[i])
}

/// Whether every text of the list is a word.
pub open spec fn all_words(list: Seq<Seq<char>>) -> bool {
    forall|i: int| 0 <= i < list.len() ==> word(#[trigger] list[i])
}

proof fn lemma_pieces_have_no_space(s: Seq<char>)
    ensures
        forall|i: int, k: int|
            #![trigger pieces(s)[i][k]]
            0 <= i < pieces(s).len() && 0 <= k < pieces(s)[i].len() ==> !is_space(pieces(s)[i][k]),
    decreases s.len(),
{
    if s.len() > 0 {
        lemma_pieces_nonempty(s.drop_last());
        lemma_pieces_have_no_space(s.drop_last());
    }
}

proof fn lemma_without_empty_words(list: Seq<Seq<char>>)
    requires
        forall|i: int, k: int|
            #![trigger list[i][k]]
            0 <= i < list.len() && 0 <= k < list[i].len() ==> !is_space(list[i][k]),
    ensures
        all_words(without_empty(list)),
    decreases list.len(),
{
    if list.len() > 0 {
        let front = list.drop_last();
        assert forall|i: int, k: int|
            #![trigger front[i][k]]
            0 <= i < front.len() && 0 <= k < front[i].len() implies !is_space(front[i][k]) by {
            assert(front[i] == list[i]);
            assert(!is_space(list[i][k]));
        }
        lemma_without_empty_words(front);
        let out = without_empty(list);
        assert forall|i: int| 0 <= i < out.len() implies word(#[trigger] out[i]) by {
            if i < without_empty(front).len() {
                assert(out[i] == without_empty(front)[i]);
            } else {
                assert(out[i] == list[list.len() - 1]);
                assert forall|k: int| 0 <= k < out[i].len() implies !is_space(
                    #[trigger] out[i][k],
                ) by {
                    assert(!is_space(list[list.len() - 1][k]));
                }
            }
        }
    }
}

/// Every one of the words of a text is a word.
pub proof fn law_words_are_words(s: Seq<char>)
    ensures
        all_words(words(s)),
{
    lemma_pieces_have_no_space(s);
    lemma_without_empty_words(pieces(s));
}

proof fn lemma_pieces_add_word(s: Seq<char>, w: Seq<char>)
    requires
        forall|i: int| 0 <= i < w.len() ==> !is_space(#[trigger] w[i]),
    ensures
        pieces(s + w) == pieces(s).update(pieces(s).len() - 1, pieces(s).last() + w),
    decreases w.len(),
{
    lemma_pieces_nonempty(s);
    if w.len() == 0 {
        assert(s + w =~= s);
        assert(pieces(s).last() + w =~= pieces(s).last());
        assert(pieces(s).update(pieces(s).len() - 1, pieces(s).last() + w) =~= pieces(s));
    } else {
        let shorter = w.drop_last();
        assert forall|i: int| 0 <= i < shorter.len() implies !is_space(#[trigger] shorter[i]) by {
            assert(shorter[i] == w[i]);
        }
        lemma_pieces_add_word(s, shorter);
        assert((s + w).drop_last() =~= s + shorter);
        assert(!is_space(w[w.len() - 1]));
        assert((pieces(s).last() + shorter).push(w.last()) =~= pieces(s).last() + w);
        assert(pieces(s + w) =~= pieces(s).update(
            pieces(s).len() - 1,
            pieces(s).last() + w,
        ));
    }
}

/// Words with one space between each two are the words of the text that they
/// make.
pub proof fn law_words_of_joined(list: Seq<Seq<char>>)
    requires
        all_words(list),
    ensures
        words(join(list, seq![' '])) == list,
    decreases list.len(),
{
    let sep = seq![' '];
    let none = Seq::<char>::empty();
    reveal_with_fuel(without_empty, 2);
    if list.len() == 0 {
        assert(pieces(none).drop_last() =~= Seq::empty());
        assert(pieces(none).last() == none);
        assert(without_empty(pieces(none)) =~= list);
    } else {
        let front = list.drop_last();
        let w = list.last();
        assert forall|i: int| 0 <= i < front.len() implies word(#[trigger] front[i]) by {
            assert(front[i] == list[i]);
        }
        assert(word(list[list.len() - 1]));
        law_words_of_joined(front);
        if front.len() == 0 {
            assert(none + w =~= w);
            lemma_pieces_add_word(none, w);
            assert(pieces(w) =~= seq![w]);
            assert(pieces(w).drop_last() =~= Seq::empty());
            assert(without_empty(pieces(w)) =~= seq![w]);
            assert(list =~= seq![w]);
        } else {
            let s = join(front, sep);
            let spaced = s + sep;
            assert(spaced.drop_last() =~= s);
            assert(spaced.last() == ' ');
            assert(pieces(spaced) =~= pieces(s).push(none));
            lemma_pieces_add_word(spaced, w);
            assert(none + w =~= w);
            assert(pieces(spaced + w) =~= pieces(s).push(w));
            assert(pieces(spaced + w).drop_last() =~= pieces(s));
            assert(join(list, sep) =~= spaced + w);
            assert(front.push(w) =~= list);
        }
    }
}

} // verus!
