//! What the readings of text promise: white space, case, words, numbers, order.

use vstd::prelude::*;

use crate::lines::{
    lemma_split_concat, lemma_split_nonempty, lemma_split_single, lines_of, split_lines,
    without_return,
};
use crate::numeral::{all_digits, decimal, digit_char, digits_value, number_in};
use crate::order::precedes;
use crate::search::{occurs, occurs_at};
use crate::text::{blank, is_space, lowered, raised, trimmed, trimmed_end, trimmed_start};
use crate::words::{pieces, without_empty, word, words};

verus! {

// ---------------------------------------------------------------------------
// White space
// ---------------------------------------------------------------------------

/// The white space characters are these.
pub proof fn law_white_space(c: char)
    ensures
        is_space(c) <==> (c == '\t' || c == '\n' || c == '\u{b}' || c == '\u{c}' || c == '\r' || c
            == ' ' || c == '\u{85}' || c == '\u{a0}' || c == '\u{1680}' || '\u{2000}' <= c
            <= '\u{200a}' || c == '\u{2028}' || c == '\u{2029}' || c == '\u{202f}' || c
            == '\u{205f}' || c == '\u{3000}'),
{
}

/// Whether `s` is white space throughout.
pub open spec fn all_space(s: Seq<char>) -> bool {
    forall|i: int| 0 <= i < s.len() ==> is_space(#[trigger] s[i])
}

/// Taking away the white space in front leaves the rest as it is.
pub proof fn law_trimmed_start(s: Seq<char>) -> (front: Seq<char>)
    ensures
        s == front + trimmed_start(s),
        all_space(front),
        trimmed_start(s).len() > 0 ==> !is_space(trimmed_start(s)[0]),
    decreases s.len(),
{
    if s.len() > 0 && is_space(s.first()) {
        let rest = law_trimmed_start(s.drop_first());
        let front = seq![s.first()] + rest;
        assert(s =~= seq![s.first()] + s.drop_first());
        assert(s =~= front + trimmed_start(s.drop_first()));
        assert forall|i: int| 0 <= i < front.len() implies is_space(#[trigger] front[i]) by {
            if i > 0 {
                assert(front[i] == rest[i - 1]);
            }
        }
        front
    } else {
        assert(s =~= Seq::<char>::empty() + s);
        Seq::empty()
    }
}

proof fn lemma_trimmed_end(s: Seq<char>) -> (back: Seq<char>)
    ensures
        s == trimmed_end(s) + back,
        all_space(back),
        trimmed_end(s).len() > 0 ==> !is_space(trimmed_end(s).last()),
    decreases s.len(),
{
    if s.len() > 0 && is_space(s.last()) {
        let rest = lemma_trimmed_end(s.drop_last());
        let back = rest.push(s.last());
        assert(s =~= s.drop_last().push(s.last()));
        assert(s =~= trimmed_end(s.drop_last()) + back);
        assert forall|i: int| 0 <= i < back.len() implies is_space(#[trigger] back[i]) by {
            if i < rest.len() {
                assert(back[i] == rest[i]);
            }
        }
        back
    } else {
        assert(s =~= s + Seq::<char>::empty());
        Seq::empty()
    }
}

/// Trimming takes away white space at the ends, all of it and nothing else.
pub proof fn law_trimmed(s: Seq<char>) -> (ends: (Seq<char>, Seq<char>))
    ensures
        s == ends.0 + trimmed(s) + ends.1,
        all_space(ends.0),
        all_space(ends.1),
        trimmed(s).len() > 0 ==> !is_space(trimmed(s)[0]) && !is_space(trimmed(s).last()),
        blank(s) <==> all_space(s),
{
    let front = law_trimmed_start(s);
    let middle = trimmed_start(s);
    let back = lemma_trimmed_end(middle);
    assert(s =~= front + trimmed(s) + back);
    if trimmed(s).len() > 0 {
        assert(trimmed(s)[0] == middle[0]);
        assert(s[front.len() as int] == trimmed(s)[0]);
    } else {
        assert(middle.len() == back.len());
        if middle.len() > 0 {
            assert(is_space(back[0]));
            assert(middle[0] == back[0]);
        }
        assert(s =~= front);
    }
    (front, back)
}

// ---------------------------------------------------------------------------
// Case
// ---------------------------------------------------------------------------

/// Making a text lower or upper case replaces each of the 26 letters by its other
/// form, and keeps every other character.
pub proof fn law_case(s: Seq<char>, i: int)
    requires
        0 <= i < s.len(),
    ensures
        lowered(s).len() == s.len(),
        raised(s).len() == s.len(),
        'A' <= s[i] <= 'Z' ==> lowered(s)[i] as int == s[i] as int + 32,
        !('A' <= s[i] <= 'Z') ==> lowered(s)[i] == s[i],
        'a' <= s[i] <= 'z' ==> raised(s)[i] as int == s[i] as int - 32,
        !('a' <= s[i] <= 'z') ==> raised(s)[i] == s[i],
{
}

// ---------------------------------------------------------------------------
// Words
// ---------------------------------------------------------------------------

proof fn lemma_pieces_across_space(a: Seq<char>, c: char, b: Seq<char>)
    requires
        is_space(c),
    ensures
        pieces(a.push(c) + b) == pieces(a) + pieces(b),
        pieces(b).len() >= 1,
    decreases b.len(),
{
    let whole = a.push(c) + b;
    if b.len() == 0 {
        assert(whole =~= a.push(c));
        assert(a.push(c).drop_last() =~= a);
        assert(pieces(whole) =~= pieces(a) + pieces(b));
    } else {
        lemma_pieces_across_space(a, c, b.drop_last());
        assert(whole.drop_last() =~= a.push(c) + b.drop_last());
        assert(whole.last() == b.last());
        assert(pieces(whole) =~= pieces(a) + pieces(b));
    }
}

proof fn lemma_without_empty_concat(a: Seq<Seq<char>>, b: Seq<Seq<char>>)
    ensures
        without_empty(a + b) == without_empty(a) + without_empty(b),
    decreases b.len(),
{
    if b.len() == 0 {
        assert(a + b =~= a);
        assert(without_empty(a + b) =~= without_empty(a) + without_empty(b));
    } else {
        lemma_without_empty_concat(a, b.drop_last());
        assert((a + b).drop_last() =~= a + b.drop_last());
        assert(without_empty(a + b) =~= without_empty(a) + without_empty(b));
    }
}

/// White space parts words, whichever it is: the words of a text are those before
/// it and those behind it.
pub proof fn law_words_across_space(a: Seq<char>, c: char, b: Seq<char>)
    requires
        is_space(c),
    ensures
        words(a + seq![c] + b) == words(a) + words(b),
{
    assert(a + seq![c] + b =~= a.push(c) + b);
    lemma_pieces_across_space(a, c, b);
    lemma_without_empty_concat(pieces(a), pieces(b));
}

proof fn lemma_pieces_of_word(w: Seq<char>)
    requires
        forall|i: int| 0 <= i < w.len() ==> !is_space(#[trigger] w[i]),
    ensures
        pieces(w) == seq![w],
    decreases w.len(),
{
    if w.len() == 0 {
        assert(w =~= Seq::empty());
    } else {
        lemma_pieces_of_word(w.drop_last());
        assert(!is_space(w[w.len() - 1]));
        assert(w.drop_last().push(w.last()) =~= w);
        assert(pieces(w) =~= seq![w]);
    }
}

/// A text without white space is its only word, and an empty text has none.
pub proof fn law_word_alone(w: Seq<char>)
    ensures
        word(w) ==> words(w) == seq![w],
        w.len() == 0 ==> words(w).len() == 0,
{
    reveal_with_fuel(without_empty, 2);
    if word(w) {
        lemma_pieces_of_word(w);
        assert(seq![w].drop_last() =~= Seq::empty());
        assert(words(w) =~= seq![w]);
    } else if w.len() == 0 {
        lemma_pieces_of_word(w);
        assert(seq![w].drop_last() =~= Seq::empty());
    }
}

// ---------------------------------------------------------------------------
// Lines
// ---------------------------------------------------------------------------

/// A line feed ends a line, and the lines behind it follow.
pub proof fn law_split_line_by_line(line: Seq<char>, rest: Seq<char>)
    requires
        !line.contains('\n'),
    ensures
        split_lines(line) == seq![line],
        split_lines(line + seq!['\n'] + rest) == seq![line] + split_lines(rest),
{
    lemma_split_single(line, '\n');
    lemma_split_concat(line, '\n', rest);
}

/// A line feed, or a carriage return with a line feed behind it, ends a line, and
/// the lines behind it follow. What no line feed ends is a line unless it is empty.
pub proof fn law_lines_of_line_by_line(line: Seq<char>, rest: Seq<char>)
    requires
        !line.contains('\n'),
    ensures
        line.len() == 0 ==> lines_of(line).len() == 0,
        line.len() > 0 ==> lines_of(line) == seq![line],
        line.len() == 0 || line.last() != '\r' ==> lines_of(line + seq!['\n'] + rest) == seq![
            line,
        ] + lines_of(rest),
        lines_of(line + seq!['\r', '\n'] + rest) == seq![line] + lines_of(rest),
{
    law_split_line_by_line(line, rest);
    lemma_split_nonempty(rest, '\n');
    assert(lines_of(line) =~= if line.len() == 0 {
        Seq::empty()
    } else {
        seq![line]
    });
    let after = split_lines(rest);
    if line.len() == 0 || line.last() != '\r' {
        let whole = line + seq!['\n'] + rest;
        assert(split_lines(whole).last() == after.last());
        assert(lines_of(whole) =~= seq![line] + lines_of(rest));
    }
    let ended = line.push('\r');
    assert(!ended.contains('\n')) by {
        if ended.contains('\n') {
            let k = ended.index_of('\n');
            assert(line[k] == '\n');
        }
    }
    law_split_line_by_line(ended, rest);
    assert(line + seq!['\r', '\n'] + rest =~= ended + seq!['\n'] + rest);
    let whole = ended + seq!['\n'] + rest;
    assert(split_lines(whole).last() == after.last());
    assert(without_return(ended) =~= line);
    assert(lines_of(whole) =~= seq![line] + lines_of(rest));
}

// ---------------------------------------------------------------------------
// Numbers
// ---------------------------------------------------------------------------

/// A number is written with its digits, the last one behind the others, and
/// without a zero in front of them.
pub proof fn law_decimal(n: nat, d: nat)
    requires
        d < 10,
    ensures
        decimal(d) == seq!["0123456789"@[d as int]],
        n > 0 ==> decimal(10 * n + d) == decimal(n).push("0123456789"@[d as int]),
{
    reveal_strlit("0123456789");
    assert("0123456789"@[d as int] == digit_char(d));
    assert((10 * n + d) / 10 == n);
    assert((10 * n + d) % 10 == d);
}

proof fn lemma_decimal_value(n: nat)
    ensures
        all_digits(decimal(n)),
        digits_value(decimal(n)) == n,
        decimal(n)[0] != '+',
    decreases n,
{
    reveal_with_fuel(digits_value, 2);
    if n < 10 {
        assert(decimal(n).drop_last() =~= Seq::empty());
    } else {
        lemma_decimal_value(n / 10);
        let front = decimal(n / 10);
        assert(decimal(n).drop_last() =~= front);
        assert forall|i: int| 0 <= i < decimal(n).len() implies '0' <= #[trigger] decimal(n)[i]
            <= '9' by {
            if i < front.len() {
                assert(decimal(n)[i] == front[i]);
            }
        }
        assert(decimal(n)[0] == front[0]);
    }
}

/// A number is read back from its decimal notation, with or without a plus sign,
/// as long as it is not too large.
pub proof fn law_number_round_trip(n: nat, max: nat)
    ensures
        number_in(decimal(n), max) == if n <= max {
            Some(n)
        } else {
            None
        },
        number_in(seq!['+'] + decimal(n), max) == if n <= max {
            Some(n)
        } else {
            None
        },
{
    lemma_decimal_value(n);
    assert((seq!['+'] + decimal(n)).skip(1) =~= decimal(n));
}

/// A digit denotes its value, and one digit more makes ten times the number and
/// that digit, zeros in front or not, as long as that is not too large.
pub proof fn law_number_digit_by_digit(s: Seq<char>, d: nat, max: nat)
    requires
        d < 10,
        d <= max,
    ensures
        number_in(seq!["0123456789"@[d as int]], max) == Some(d),
        number_in(s, max) matches Some(n) ==> number_in(s.push("0123456789"@[d as int]), max)
            == if 10 * n + d <= max {
            Some((10 * n + d) as nat)
        } else {
            None
        },
{
    reveal_strlit("0123456789");
    reveal_with_fuel(digits_value, 2);
    let c = "0123456789"@[d as int];
    assert(c as int == 0x30 + d);
    assert(seq![c].drop_last() =~= Seq::empty());
    assert(seq![c][0] == c);
    if number_in(s, max) is Some {
        let more = s.push(c);
        let digits = if s[0] == '+' {
            s.skip(1)
        } else {
            s
        };
        let longer = if more[0] == '+' {
            more.skip(1)
        } else {
            more
        };
        assert(longer =~= digits.push(c));
        assert(longer.drop_last() =~= digits);
        assert forall|i: int| 0 <= i < longer.len() implies '0' <= #[trigger] longer[i] <= '9' by {
            if i < digits.len() {
                assert(longer[i] == digits[i]);
            }
        }
    }
}

/// Only digits, and a plus sign in front of them, denote a number.
pub proof fn law_number_needs_digits(s: Seq<char>, max: nat)
    ensures
        number_in(s, max) is Some ==> s.len() > 0 && (forall|i: int|
            0 <= i < s.len() ==> '0' <= #[trigger] s[i] <= '9' || (i == 0 && s[i] == '+' && s.len()
                > 1)),
{
    if number_in(s, max) is Some {
        if s.len() > 0 && s[0] == '+' {
            let digits = s.skip(1);
            assert(all_digits(digits));
            assert forall|i: int| 0 <= i < s.len() implies '0' <= #[trigger] s[i] <= '9' || (i == 0
                && s[i] == '+' && s.len() > 1) by {
                if i > 0 {
                    assert(digits[i - 1] == s[i]);
                }
            }
        }
    }
}

// ---------------------------------------------------------------------------
// Order and search
// ---------------------------------------------------------------------------

/// A text that goes on after another one comes after it, and of two texts that go
/// on differently the one with the smaller character comes first.
pub proof fn law_order(common: Seq<char>, a: Seq<char>, b: Seq<char>)
    ensures
        a.len() == 0 && b.len() > 0 ==> precedes(common + a, common + b),
        b.len() == 0 ==> !precedes(common + a, common + b),
        a.len() > 0 && b.len() > 0 && a[0] != b[0] ==> precedes(common + a, common + b) == (a[0]
            < b[0]),
    decreases common.len(),
{
    if common.len() == 0 {
        assert(common + a =~= a);
        assert(common + b =~= b);
    } else {
        law_order(common.drop_first(), a, b);
        assert((common + a).drop_first() =~= common.drop_first() + a);
        assert((common + b).drop_first() =~= common.drop_first() + b);
        assert((common + a).first() == common.first());
        assert((common + b).first() == common.first());
    }
}

/// A text stands in every text that is made of it with something before and
/// something behind it.
pub proof fn law_found_anywhere(front: Seq<char>, pat: Seq<char>, back: Seq<char>)
    ensures
        occurs(front + pat + back, pat),
{
    let text = front + pat + back;
    let at = front.len() as int;
    assert(text.subrange(at, at + pat.len()) =~= pat);
    assert(occurs_at(text, pat, at));
}

/// A text in which another one stands is made of it with something before and
/// something behind it.
pub proof fn law_found_is_there(text: Seq<char>, pat: Seq<char>) -> (around: (Seq<char>, Seq<char>))
    requires
        occurs(text, pat),
    ensures
        text == around.0 + pat + around.1,
{
    let i = choose|i: int| occurs_at(text, pat, i);
    let front = text.take(i);
    let back = text.skip(i + pat.len());
    assert(text.subrange(i, i + pat.len()) == pat);
    assert(text =~= front + pat + back) by {
        assert forall|k: int| 0 <= k < text.len() implies text[k] == (front + pat + back)[k] by {
            if i <= k < i + pat.len() {
                assert(text.subrange(i, i + pat.len())[k - i] == text[k]);
            }
        }
    }
    (front, back)
}

} // verus!
