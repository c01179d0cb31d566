//! Lines of text: splitting, joining, and reading lines with a machine that
//! takes one line at a time.

use vstd::prelude::*;
use vstd::string::*;

use crate::text::{chars_of, texts};

verus! {

// ---------------------------------------------------------------------------
// Splitting and joining
// ---------------------------------------------------------------------------

/// The parts of `s` between the characters `sep`: one more than there are
/// separators, so a text without any is its own single part.
pub open spec fn split(s: Seq<char>, sep: char) -> Seq<Seq<char>>
    decreases s.len(),
{
    if s.len() == 0 {
        seq![Seq::<char>::empty()]
    } else {
        let before = split(s.drop_last(), sep);
        if s.last() == sep {
            before.push(Seq::<char>::empty())
        } else {
            before.update(before.len() - 1, before.last().push(s.last()))
        }
    }
}

/// `parts` one after the other, with `sep` between each two.
pub open spec fn join(parts: Seq<Seq<char>>, sep: Seq<char>) -> Seq<char>
    decreases parts.len(),
{
    if parts.len() == 0 {
        Seq::empty()
    } else if parts.len() == 1 {
        parts[0]
    } else {
        join(parts.drop_last(), sep) + sep + parts.last()
    }
}

/// The lines of `s`, each without its ending.
pub open spec fn split_lines(s: Seq<char>) -> Seq<Seq<char>> {
    split(s, '\n')
}

/// `parts` as lines: a line feed between each two.
pub open spec fn join_lines(parts: Seq<Seq<char>>) -> Seq<char> {
    join(parts, seq!['\n'])
}

/// A text always has at least one part.
pub proof fn lemma_split_nonempty(s: Seq<char>, sep: char)
    ensures
        split(s, sep).len() >= 1,
    decreases s.len(),
{
    if s.len() > 0 {
        lemma_split_nonempty(s.drop_last(), sep);
    }
}

/// The parts of a string between the characters `sep`.
pub fn split_at_char(s: &str, sep: char) -> (parts: Vec<String>)
    ensures
        texts(parts@) == split(s@, sep),
{
    let mut parts: Vec<String> = Vec::new();
    let mut current = String::new();
    proof {
        assert(s@.take(0) == Seq::<char>::empty());
        assert(texts(parts@).push(current@) == split(s@.take(0), sep));
    }
    for c in it: s.chars()
        invariant
            it.seq() == s@,
            texts(parts@).push(current@) == split(s@.take(it.index()), sep),
    {
        let ghost old_parts = parts@;
        let ghost old_current = current@;
        proof {
            assert(s@.take(it.index() + 1).drop_last() == s@.take(it.index()));
            assert(s@.take(it.index() + 1).last() == c);
        }
        if c == sep {
            parts.push(current);
            current = String::new();
            assert(texts(parts@) == texts(old_parts).push(old_current));
        } else {
            current.push(c);
            assert(texts(old_parts).push(old_current).update(
                texts(old_parts).len() as int,
                old_current.push(c),
            ) == texts(old_parts).push(old_current.push(c)));
        }
    }
    assert(s@.take(s@.len() as int) == s@);
    let ghost old_parts = parts@;
    parts.push(current);
    assert(texts(parts@) == texts(old_parts).push(current@));
    parts
}

/// The parts one after the other, with `sep` between each two.
pub fn join_texts(parts: &[String], sep: &str) -> (out: String)
    ensures
        out@ == join(texts(parts@), sep@),
{
    let mut out = String::new();
    for i in 0..parts.len()
        invariant
            out@ == join(texts(parts@).take(i as int), sep@),
    {
        let ghost all = texts(parts@);
        assert(all.take(i + 1).drop_last() == all.take(i as int));
        if i > 0 {
            out.append(sep);
        } else {
            assert(out@ + parts[i as int]@ == parts[i as int]@);
        }
        out.append(parts[i].as_str());
    }
    assert(texts(parts@).take(parts@.len() as int) == texts(parts@));
    out
}


// ---------------------------------------------------------------------------
// Splitting undoes joining, and joining undoes splitting
// ---------------------------------------------------------------------------

/// Joining one more part after the others.
pub proof fn lemma_join_push(parts: Seq<Seq<char>>, sep: Seq<char>, last: Seq<char>)
    requires
        parts.len() >= 1,
    ensures
        join(parts.push(last), sep) == join(parts, sep) + sep + last,
{
    assert(parts.push(last).drop_last() == parts);
}

/// Joining two runs of parts is joining each and joining the results.
pub proof fn lemma_join_concat(a: Seq<Seq<char>>, b: Seq<Seq<char>>, sep: Seq<char>)
    requires
        a.len() >= 1,
        b.len() >= 1,
    ensures
        join(a + b, sep) == join(a, sep) + sep + join(b, sep),
    decreases b.len(),
{
    if b.len() == 1 {
        assert(a + b == a.push(b[0]));
        lemma_join_push(a, sep, b[0]);
    } else {
        lemma_join_concat(a, b.drop_last(), sep);
        assert(a + b == (a + b.drop_last()).push(b.last()));
        lemma_join_push(a + b.drop_last(), sep, b.last());
        assert(join(a, sep) + sep + join(b.drop_last(), sep) + sep + b.last() == join(a, sep) + sep
            + (join(b.drop_last(), sep) + sep + b.last()));
    }
}

proof fn lemma_join_extend_last(parts: Seq<Seq<char>>, sep: Seq<char>, c: char)
    requires
        parts.len() >= 1,
    ensures
        join(parts.update(parts.len() - 1, parts.last().push(c)), sep) == join(parts, sep).push(c),
{
    let longer = parts.update(parts.len() - 1, parts.last().push(c));
    if parts.len() > 1 {
        assert(longer.drop_last() == parts.drop_last());
        let front = join(parts.drop_last(), sep) + sep;
        assert(front + parts.last().push(c) == (front + parts.last()).push(c));
    }
}

/// Splitting a text at its line feeds and joining the lines again gives back
/// the same text.
pub proof fn lemma_join_of_split(s: Seq<char>, sep: char)
    ensures
        join(split(s, sep), seq![sep]) == s,
    decreases s.len(),
{
    if s.len() > 0 {
        let before = split(s.drop_last(), sep);
        lemma_split_nonempty(s.drop_last(), sep);
        lemma_join_of_split(s.drop_last(), sep);
        if s.last() == sep {
            lemma_join_push(before, seq![sep], Seq::empty());
            assert(s.drop_last() + seq![sep] + Seq::<char>::empty() == s);
        } else {
            lemma_join_extend_last(before, seq![sep], s.last());
            assert(s.drop_last().push(s.last()) == s);
        }
    }
}

/// A text without separators is a single part.
pub proof fn lemma_split_single(s: Seq<char>, sep: char)
    requires
        !s.contains(sep),
    ensures
        split(s, sep) == seq![s],
    decreases s.len(),
{
    if s.len() > 0 {
        assert(s.contains(s.last()));
        assert forall|c: char| s.drop_last().contains(c) implies s.contains(c) by {
            let i = s.drop_last().index_of(c);
            assert(s[i] == c);
        }
        lemma_split_single(s.drop_last(), sep);
        assert(s.drop_last().push(s.last()) == s);
        assert(seq![s.drop_last()].update(0, s) == seq![s]);
    } else {
        assert(s == Seq::<char>::empty());
    }
}

/// Splitting two texts with a separator between them is splitting each.
pub proof fn lemma_split_concat(a: Seq<char>, sep: char, b: Seq<char>)
    ensures
        split(a + seq![sep] + b, sep) == split(a, sep) + split(b, sep),
    decreases b.len(),
{
    let whole = a + seq![sep] + b;
    lemma_split_nonempty(a, sep);
    if b.len() == 0 {
        assert(whole.drop_last() == a);
        assert(split(a, sep).push(Seq::empty()) == split(a, sep) + split(b, sep));
    } else {
        lemma_split_concat(a, sep, b.drop_last());
        lemma_split_nonempty(b.drop_last(), sep);
        assert(whole.drop_last() == a + seq![sep] + b.drop_last());
        let left = split(a, sep);
        let right = split(b.drop_last(), sep);
        if b.last() == sep {
            assert((left + right).push(Seq::empty()) == left + right.push(Seq::empty()));
        } else {
            assert((left + right).last() == right.last());
            assert((left + right).update(
                (left + right).len() - 1,
                right.last().push(b.last()),
            ) == left + right.update(right.len() - 1, right.last().push(b.last())));
        }
    }
}

/// Joining lines and splitting the text again gives back the same lines, as
/// long as no line holds a separator.
pub proof fn lemma_split_of_join(parts: Seq<Seq<char>>, sep: char)
    requires
        parts.len() >= 1,
        forall|i: int| 0 <= i < parts.len() ==> !(#[trigger] parts[i]).contains(sep),
    ensures
        split(join(parts, seq![sep]), sep) == parts,
    decreases parts.len(),
{
    lemma_split_single(parts.last(), sep);
    if parts.len() > 1 {
        lemma_split_of_join(parts.drop_last(), sep);
        lemma_split_concat(join(parts.drop_last(), seq![sep]), sep, parts.last());
        assert(parts.drop_last() + seq![parts.last()] == parts);
    } else {
        assert(seq![parts[0]] == parts);
    }
}

/// No part of a split holds the separator.
pub proof fn lemma_split_parts_clean(s: Seq<char>, sep: char)
    ensures
        forall|i: int| 0 <= i < split(s, sep).len() ==> !(#[trigger] split(s, sep)[i]).contains(sep),
    decreases s.len(),
{
    if s.len() > 0 {
        let before = split(s.drop_last(), sep);
        lemma_split_nonempty(s.drop_last(), sep);
        lemma_split_parts_clean(s.drop_last(), sep);
        assert forall|i: int| 0 <= i < split(s, sep).len() implies !(#[trigger] split(
            s,
            sep,
        )[i]).contains(sep) by {
            let part = split(s, sep)[i];
            if part.contains(sep) {
                let k = part.index_of(sep);
                assert(part[k] == sep);
                if i < before.len() {
                    if s.last() == sep || i < before.len() - 1 {
                        assert(part == before[i]);
                    } else {
                        assert(before[i][k] == sep);
                        assert(before[i].contains(sep));
                    }
                }
            }
        }
    }
}

// ---------------------------------------------------------------------------
// Lines with their endings taken off
// ---------------------------------------------------------------------------

/// A line that ended in a line feed, without the carriage return before it.
pub open spec fn without_return(line: Seq<char>) -> Seq<char> {
    if line.len() > 0 && line.last() == '\r' {
        line.drop_last()
    } else {
        line
    }
}

/// The lines of `s` in the sense of `str::lines`: a line ends in a line feed
/// or in a carriage return and a line feed; what follows the last line feed is
/// a line unless it is empty, and keeps a carriage return at its end.
pub open spec fn lines_of(s: Seq<char>) -> Seq<Seq<char>> {
    let parts = split_lines(s);
    let ended = parts.drop_last().map_values(|line: Seq<char>| without_return(line));
    if parts.last().len() == 0 {
        ended
    } else {
        ended.push(parts.last())
    }
}

/// The lines of a string, without their endings.
pub fn lines(s: &str) -> (out: Vec<String>)
    ensures
        texts(out@) == lines_of(s@),
{
    let parts = split_at_char(s, '\n');
    let mut out: Vec<String> = Vec::new();
    let ghost all = split_lines(s@);
    proof {
        lemma_split_nonempty(s@, '\n');
    }
    for i in 0..parts.len() - 1
        invariant
            texts(parts@) == all,
            parts.len() >= 1,
            texts(out@) == all.take(i as int).map_values(|line: Seq<char>| without_return(line)),
    {
        let part = parts[i].as_str();
        assert(part@ == all[i as int]);
        let chars = chars_of(part);
        let n: usize = chars.len();
        let line = if n > 0 && chars[n - 1] == '\r' {
            part.substring_char(0, n - 1).to_owned()
        } else {
            part.to_owned()
        };
        assert(line@ == without_return(all[i as int]));
        let ghost old_out = out@;
        out.push(line);
        assert(texts(out@) == texts(old_out).push(line@));
        assert(texts(out@) == all.take(i + 1).map_values(|line: Seq<char>| without_return(line)));
    }
    assert(all.take(all.len() - 1) == all.drop_last());
    let last = &parts[parts.len() - 1];
    assert(last@ == all.last());
    if !last.as_str().is_empty() {
        let ghost old_out = out@;
        out.push(last.clone());
        assert(texts(out@) == texts(old_out).push(last@));
    }
    out
}

// ---------------------------------------------------------------------------
// Machines that read lines
// ---------------------------------------------------------------------------

/// A machine that reads one line at a time and may refuse a line. Lines are
/// numbered from 1.
pub trait LineMachine {
    /// What the machine knows between two lines.
    type State;

    /// Why the machine refuses a line.
    type Fault;

    /// What the machine knows after one more line.
    spec fn step(state: Self::State, line: Seq<char>, number: nat) -> Result<
        Self::State,
        Self::Fault,
    >;
}

/// What the machine knows after reading `lines`, of which the first has the
/// number `before + 1`, or the fault at which it stopped.
pub open spec fn read<M: LineMachine>(
    lines: Seq<Seq<char>>,
    before: nat,
    state: M::State,
) -> Result<M::State, M::Fault>
    decreases lines.len(),
{
    if lines.len() == 0 {
        Ok(state)
    } else {
        match read::<M>(lines.drop_last(), before, state) {
            Ok(known) => M::step(known, lines.last(), before + lines.len()),
            Err(fault) => Err(fault),
        }
    }
}

/// One line more.
pub proof fn lemma_read_next<M: LineMachine>(
    lines: Seq<Seq<char>>,
    before: nat,
    state: M::State,
    count: int,
)
    requires
        0 <= count < lines.len(),
    ensures
        read::<M>(lines.take(count + 1), before, state) == match read::<M>(
            lines.take(count),
            before,
            state,
        ) {
            Ok(known) => M::step(known, lines[count], (before + count + 1) as nat),
            Err(fault) => Err(fault),
        },
{
    assert(lines.take(count + 1).drop_last() == lines.take(count));
}

/// A machine that stopped at a fault stays there.
pub proof fn lemma_read_stops<M: LineMachine>(
    lines: Seq<Seq<char>>,
    before: nat,
    state: M::State,
    count: int,
)
    requires
        0 <= count <= lines.len(),
        read::<M>(lines.take(count), before, state) is Err,
    ensures
        read::<M>(lines, before, state) == read::<M>(lines.take(count), before, state),
    decreases lines.len() - count,
{
    if count == lines.len() {
        assert(lines.take(count) == lines);
    } else {
        lemma_read_next::<M>(lines, before, state, count);
        lemma_read_stops::<M>(lines, before, state, count + 1);
    }
}

/// Reading two runs of lines is reading the first and going on with the second.
pub proof fn lemma_read_concat<M: LineMachine>(
    a: Seq<Seq<char>>,
    b: Seq<Seq<char>>,
    before: nat,
    state: M::State,
)
    ensures
        read::<M>(a + b, before, state) == match read::<M>(a, before, state) {
            Ok(known) => read::<M>(b, before + a.len(), known),
            Err(fault) => Err(fault),
        },
    decreases b.len(),
{
    if b.len() == 0 {
        assert(a + b == a);
    } else {
        lemma_read_concat::<M>(a, b.drop_last(), before, state);
        assert((a + b).drop_last() == a + b.drop_last());
    }
}

} // verus!
