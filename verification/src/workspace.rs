//! Paths inside a workspace: relative, with `/` between their parts.

use vstd::prelude::*;
use vstd::string::*;

use crate::lines::{
    join, join_texts, lemma_split_of_join, lemma_split_parts_clean, split, split_at_char,
};
use crate::text::{chars_of, same, texts};

verus! {

/// `path` with every backslash made a slash.
pub open spec fn slashed(path: Seq<char>) -> Seq<char> {
    path.map_values(
        |c: char|
            if c == '\\' {
                '/'
            } else {
                c
            },
    )
}

/// Whether a part of a path leads anywhere: it is neither empty nor `.`.
pub open spec fn leads(part: Seq<char>) -> bool {
    part.len() > 0 && part != "."@
}

/// The parts that lead somewhere, in order.
pub open spec fn leading_parts(parts: Seq<Seq<char>>) -> Seq<Seq<char>>
    decreases parts.len(),
{
    if parts.len() == 0 {
        Seq::empty()
    } else if leads(parts.last()) {
        leading_parts(parts.drop_last()).push(parts.last())
    } else {
        leading_parts(parts.drop_last())
    }
}

/// The parts of a path between its slashes, without those that lead nowhere.
pub open spec fn path_parts(path: Seq<char>) -> Seq<Seq<char>> {
    leading_parts(split(path, '/'))
}

/// The one spelling of a path: slashes only, no leading or doubled slash, no
/// `.` part. The path of the workspace itself is empty.
pub open spec fn normal_path(path: Seq<char>) -> Seq<char> {
    join(path_parts(slashed(path)), seq!['/'])
}

/// Whether a path starts at the root of the file system.
pub open spec fn absolute(path: Seq<char>) -> bool {
    path.len() > 0 && path[0] == '/'
}

/// Whether some part of the path leads upwards.
pub open spec fn climbs(parts: Seq<Seq<char>>) -> bool {
    parts.contains(".."@)
}

/// The name of the file that a path leads to: its last part, unless it leads
/// upwards.
pub open spec fn last_name(path: Seq<char>) -> Option<Seq<char>> {
    let parts = path_parts(path);
    if parts.len() == 0 || parts.last() == ".."@ {
        None
    } else {
        Some(parts.last())
    }
}

fn slash_text(path: &str) -> (out: String)
    ensures
        out@ == slashed(path@),
{
    let mut out = String::new();
    for c in it: path.chars()
        invariant
            it.seq() == path@,
            out@ == slashed(path@.take(it.index())),
    {
        assert(slashed(path@.take(it.index() + 1)) == slashed(path@.take(it.index())).push(
            if c == '\\' {
                '/'
            } else {
                c
            },
        ));
        if c == '\\' {
            out.push('/');
        } else {
            out.push(c);
        }
    }
    assert(path@.take(path@.len() as int) == path@);
    out
}

/// The parts of a path between its slashes, without those that lead nowhere.
pub fn parts_of(path: &str) -> (out: Vec<String>)
    ensures
        texts(out@) == path_parts(path@),
{
    let parts = split_at_char(path, '/');
    let mut out: Vec<String> = Vec::new();
    let ghost all = split(path@, '/');
    assert(texts(out@) == leading_parts(all.take(0)));
    for i in 0..parts.len()
        invariant
            texts(parts@) == all,
            texts(out@) == leading_parts(all.take(i as int)),
    {
        assert(parts@[i as int]@ == all[i as int]);
        assert(all.take(i + 1).drop_last() == all.take(i as int));
        let part = parts[i].as_str();
        if !part.is_empty() && !same(part, ".") {
            let ghost before = out@;
            out.push(part.to_owned());
            assert(texts(out@) == texts(before).push(part@));
        }
    }
    assert(all.take(all.len() as int) == all);
    out
}

/// The one spelling of a path that the model gave.
pub fn normalize_project_path(path: &str) -> (out: String)
    ensures
        out@ == normal_path(path@),
{
    let slashes = slash_text(path);
    let parts = parts_of(slashes.as_str());
    proof {
        reveal_strlit("/");
        assert("/"@ == seq!['/']);
    }
    join_texts(parts.as_slice(), "/")
}

/// Whether a path starts at the root of the file system.
pub fn is_absolute(path: &str) -> (answer: bool)
    ensures
        answer == absolute(path@),
{
    let chars = chars_of(path);
    chars.len() > 0 && chars[0] == '/'
}

/// Whether some part of the path leads upwards.
pub fn leads_upwards(parts: &Vec<String>) -> (answer: bool)
    ensures
        answer == climbs(texts(parts@)),
{
    for i in 0..parts.len()
        invariant
            forall|k: int| 0 <= k < i ==> texts(parts@)[k] != ".."@,
    {
        if same(parts[i].as_str(), "..") {
            assert(texts(parts@)[i as int] == ".."@);
            return true;
        }
    }
    false
}

/// The parts of a path below the root of the workspace, or nothing where the
/// path is absolute or leads upwards. No parts at all is the root itself.
pub fn join_workspace_relative_path(path: &str) -> (out: Option<Vec<String>>)
    ensures
        out is Some <==> !absolute(path@) && !climbs(path_parts(path@)),
        out matches Some(parts) ==> texts(parts@) == path_parts(path@),
{
    if is_absolute(path) {
        return None;
    }
    let parts = parts_of(path);
    if leads_upwards(&parts) {
        return None;
    }
    Some(parts)
}

/// The name of the file that a path leads to.
pub fn file_name(path: &str) -> (out: Option<String>)
    ensures
        out is Some <==> last_name(path@) is Some,
        out matches Some(name) ==> last_name(path@) == Some(name@),
{
    let parts = parts_of(path);
    let n: usize = parts.len();
    if n == 0 {
        return None;
    }
    assert(parts@[n - 1]@ == path_parts(path@).last());
    if same(parts[n - 1].as_str(), "..") {
        None
    } else {
        Some(parts[n - 1].clone())
    }
}

// ---------------------------------------------------------------------------
// Laws
// ---------------------------------------------------------------------------

proof fn lemma_leading_parts(parts: Seq<Seq<char>>, sep: char)
    requires
        forall|i: int| 0 <= i < parts.len() ==> !(#[trigger] parts[i]).contains(sep),
    ensures
        forall|i: int|
            0 <= i < leading_parts(parts).len() ==> leads(#[trigger] leading_parts(parts)[i])
                && !leading_parts(parts)[i].contains(sep),
    decreases parts.len(),
{
    if parts.len() > 0 {
        let front = parts.drop_last();
        assert forall|i: int| 0 <= i < front.len() implies !(#[trigger] front[i]).contains(sep) by {
            assert(front[i] == parts[i]);
        }
        lemma_leading_parts(front, sep);
        let kept = leading_parts(front);
        assert(!parts[parts.len() - 1].contains(sep));
        assert forall|i: int| 0 <= i < leading_parts(parts).len() implies leads(
            #[trigger] leading_parts(parts)[i],
        ) && !leading_parts(parts)[i].contains(sep) by {
            if i < kept.len() {
                assert(leading_parts(parts)[i] == kept[i]);
            }
        }
    }
}

proof fn lemma_all_lead(parts: Seq<Seq<char>>)
    requires
        forall|i: int| 0 <= i < parts.len() ==> leads(#[trigger] parts[i]),
    ensures
        leading_parts(parts) == parts,
    decreases parts.len(),
{
    if parts.len() > 0 {
        let front = parts.drop_last();
        assert forall|i: int| 0 <= i < front.len() implies leads(#[trigger] front[i]) by {
            assert(front[i] == parts[i]);
        }
        lemma_all_lead(front);
        assert(front.push(parts.last()) == parts);
    }
}

/// The parts of a path are never empty, never `.`, and hold no slash: below the
/// root of the workspace each is a plain name or leads upwards.
pub proof fn law_parts_are_names(path: Seq<char>)
    ensures
        forall|i: int|
            0 <= i < path_parts(path).len() ==> leads(#[trigger] path_parts(path)[i])
                && !path_parts(path)[i].contains('/'),
{
    lemma_split_parts_clean(path, '/');
    lemma_leading_parts(split(path, '/'), '/');
}

/// The normal spelling of a path has the same parts as the path with slashes
/// for backslashes.
pub proof fn law_normal_path_keeps_parts(path: Seq<char>)
    ensures
        path_parts(normal_path(path)) == path_parts(slashed(path)),
{
    let parts = path_parts(slashed(path));
    law_parts_are_names(slashed(path));
    if parts.len() == 0 {
        assert(normal_path(path) == Seq::<char>::empty());
        assert(split(normal_path(path), '/') == seq![Seq::<char>::empty()]);
        assert(seq![Seq::<char>::empty()].drop_last() == Seq::<Seq<char>>::empty());
        reveal_with_fuel(leading_parts, 2);
        assert(path_parts(normal_path(path)) == parts);
    } else {
        lemma_split_of_join(parts, '/');
        lemma_all_lead(parts);
    }
}

/// The normal spelling is never absolute: normalizing takes leading slashes
/// off, so an absolute path has to be refused before it is normalized.
pub proof fn law_normal_path_is_relative(path: Seq<char>)
    ensures
        !absolute(normal_path(path)),
{
    let parts = path_parts(slashed(path));
    law_parts_are_names(slashed(path));
    if parts.len() > 0 {
        lemma_join_begins(parts, seq!['/']);
        assert(leads(parts[0]));
        if parts[0][0] == '/' {
            assert(parts[0].contains('/'));
        }
    }
}

proof fn lemma_join_begins(parts: Seq<Seq<char>>, sep: Seq<char>)
    requires
        parts.len() > 0,
        parts[0].len() > 0,
    ensures
        join(parts, sep).len() > 0,
        join(parts, sep)[0] == parts[0][0],
    decreases parts.len(),
{
    if parts.len() > 1 {
        lemma_join_begins(parts.drop_last(), sep);
    }
}

/// Normalizing twice is normalizing once.
pub proof fn law_normal_path_is_stable(path: Seq<char>)
    ensures
        normal_path(normal_path(path)) == normal_path(path),
{
    law_normal_path_keeps_parts(path);
    let parts = path_parts(slashed(path));
    law_parts_are_names(slashed(path));
    lemma_no_backslash(path);
    assert(slashed(normal_path(path)) == normal_path(path));
}

proof fn lemma_no_backslash(path: Seq<char>)
    ensures
        forall|i: int| 0 <= i < normal_path(path).len() ==> #[trigger] normal_path(path)[i] != '\\',
{
    let s = slashed(path);
    assert forall|i: int| 0 <= i < s.len() implies #[trigger] s[i] != '\\' by {}
    lemma_split_keeps_clean(s, '/', '\\');
    lemma_leading_parts(split(s, '/'), '\\');
    lemma_join_keeps_clean(path_parts(s), '/', '\\');
}

proof fn lemma_split_keeps_clean(s: Seq<char>, sep: char, c: char)
    requires
        forall|i: int| 0 <= i < s.len() ==> #[trigger] s[i] != c,
    ensures
        forall|i: int| 0 <= i < split(s, sep).len() ==> !(#[trigger] split(s, sep)[i]).contains(c),
    decreases s.len(),
{
    if s.len() > 0 {
        let front = s.drop_last();
        assert forall|i: int| 0 <= i < front.len() implies #[trigger] front[i] != c by {
            assert(front[i] == s[i]);
        }
        lemma_split_keeps_clean(front, sep, c);
        crate::lines::lemma_split_nonempty(front, sep);
        let before = split(front, sep);
        assert(s[s.len() - 1] != c);
        assert forall|i: int| 0 <= i < split(s, sep).len() implies !(#[trigger] split(
            s,
            sep,
        )[i]).contains(c) by {
            let part = split(s, sep)[i];
            if part.contains(c) {
                let k = part.index_of(c);
                assert(part[k] == c);
                if i < before.len() {
                    if s.last() == sep || i < before.len() - 1 {
                        assert(part == before[i]);
                    } else {
                        assert(before[i][k] == c);
                        assert(before[i].contains(c));
                    }
                }
            }
        }
    }
}

proof fn lemma_join_keeps_clean(parts: Seq<Seq<char>>, sep: char, c: char)
    requires
        sep != c,
        forall|i: int| 0 <= i < parts.len() ==> !(#[trigger] parts[i]).contains(c),
    ensures
        forall|i: int|
            0 <= i < join(parts, seq![sep]).len() ==> #[trigger] join(parts, seq![sep])[i] != c,
    decreases parts.len(),
{
    if parts.len() > 0 {
        let front = parts.drop_last();
        assert forall|i: int| 0 <= i < front.len() implies !(#[trigger] front[i]).contains(c) by {
            assert(front[i] == parts[i]);
        }
        lemma_join_keeps_clean(front, sep, c);
        let last = parts[parts.len() - 1];
        assert(!last.contains(c));
        assert forall|i: int| 0 <= i < last.len() implies #[trigger] last[i] != c by {
            if last[i] == c {
                assert(last.contains(c));
            }
        }
        let all = join(parts, seq![sep]);
        assert forall|i: int| 0 <= i < all.len() implies #[trigger] all[i] != c by {
            if parts.len() > 1 {
                let head = join(front, seq![sep]);
                if i < head.len() {
                    assert(all[i] == head[i]);
                } else if i > head.len() {
                    assert(all[i] == last[i - head.len() - 1]);
                } else {
                    assert(all[i] == sep);
                }
            } else {
                assert(all[i] == last[i]);
            }
        }
    }
}

} // verus!
