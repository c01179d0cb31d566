//! What the guards promise: where paths lead, which files are not read to the
//! model, and which lines are taken for writes that went wrong.

use vstd::prelude::*;

use crate::lines::{
    join, lemma_read_concat, lemma_split_concat, lemma_split_of_join, lemma_split_single, read,
    split, split_lines,
};
use crate::mason_guard::{
    alphanumeric, begins_with_word, blocked_by, blocked_prefixes, hash_count, json_edit_proposal,
    lower_name, near_miss, refused_read, unreadable_wording, unreadable_write, UnreadableMachine,
};
use crate::numeral::decimal;
use crate::outside::{letter_or_numeral, quoted};
use crate::search::occurs;
use crate::text::{is_space, lowered, raised, trimmed, trimmed_start};
use crate::text_laws::{all_space, law_trimmed_start};
use crate::workspace::{absolute, climbs, last_name, leading_parts, normal_path, path_parts, slashed};

verus! {

// ---------------------------------------------------------------------------
// Paths
// ---------------------------------------------------------------------------

proof fn lemma_leading_concat(a: Seq<Seq<char>>, b: Seq<Seq<char>>)
    ensures
        leading_parts(a + b) == leading_parts(a) + leading_parts(b),
    decreases b.len(),
{
    if b.len() == 0 {
        assert(a + b =~= a);
        assert(leading_parts(a + b) =~= leading_parts(a) + leading_parts(b));
    } else {
        lemma_leading_concat(a, b.drop_last());
        assert((a + b).drop_last() =~= a + b.drop_last());
        assert(leading_parts(a + b) =~= leading_parts(a) + leading_parts(b));
    }
}

/// A slash parts a path: the parts before it are followed by those behind it.
pub proof fn law_parts_across_slash(a: Seq<char>, b: Seq<char>)
    ensures
        path_parts(a + "/"@ + b) == path_parts(a) + path_parts(b),
{
    reveal_strlit("/");
    assert("/"@ =~= seq!['/']);
    lemma_split_concat(a, '/', b);
    lemma_leading_concat(split(a, '/'), split(b, '/'));
}

/// A name without a slash is its own only part; nothing at all and a single dot
/// lead nowhere.
pub proof fn law_part_alone(name: Seq<char>)
    requires
        !name.contains('/'),
    ensures
        name.len() == 0 || name == "."@ ==> path_parts(name).len() == 0,
        name.len() > 0 && name != "."@ ==> path_parts(name) == seq![name],
{
    lemma_split_single(name, '/');
    reveal_with_fuel(leading_parts, 2);
    assert(seq![name].drop_last() =~= Seq::empty());
    if name.len() > 0 && name != "."@ {
        assert(path_parts(name) =~= seq![name]);
    }
}

/// A backslash in a path means a slash.
pub proof fn law_backslash_is_slash(a: Seq<char>, b: Seq<char>)
    ensures
        normal_path(a + "\\"@ + b) == normal_path(a + "/"@ + b),
{
    reveal_strlit("/");
    reveal_strlit("\\");
    assert(slashed(a + "\\"@ + b) =~= slashed(a + "/"@ + b));
}

/// The one spelling of a path without backslashes is its parts with a slash
/// between each two.
pub proof fn law_normal_path_is_its_parts(path: Seq<char>)
    requires
        !path.contains('\\'),
    ensures
        normal_path(path) == join(path_parts(path), "/"@),
{
    reveal_strlit("/");
    assert("/"@ =~= seq!['/']);
    assert(slashed(path) =~= path) by {
        assert forall|i: int| 0 <= i < path.len() implies slashed(path)[i] == path[i] by {
            assert(path.contains(path[i]));
        }
    }
}

/// A path starts at the root where a slash is its first character, and leads
/// upwards where two dots are one of its parts.
pub proof fn law_where_paths_lead(a: Seq<char>, b: Seq<char>)
    ensures
        absolute("/"@ + a),
        absolute(a) ==> exists|rest: Seq<char>| a == #[trigger] ("/"@ + rest),
        climbs(path_parts(a + "/../"@ + b)),
        climbs(path_parts(a)) ==> path_parts(a).contains(".."@),
        !climbs(path_parts(a)) && !climbs(path_parts(b)) ==> !climbs(path_parts(a + "/"@ + b)),
{
    reveal_strlit("/");
    reveal_strlit(".");
    reveal_strlit("..");
    reveal_strlit("/../");
    if absolute(a) {
        assert(a =~= "/"@ + a.skip(1));
    }
    assert(a + "/../"@ + b =~= a + "/"@ + (".."@ + "/"@ + b));
    law_parts_across_slash(a, ".."@ + "/"@ + b);
    law_parts_across_slash(".."@, b);
    assert(!".."@.contains('/'));
    assert(".."@.len() != "."@.len());
    law_part_alone(".."@);
    let whole = path_parts(a + "/../"@ + b);
    assert(whole =~= path_parts(a) + (seq![".."@] + path_parts(b)));
    assert(whole[path_parts(a).len() as int] == ".."@);
    law_parts_across_slash(a, b);
    let both = path_parts(a + "/"@ + b);
    if climbs(both) {
        let k = both.index_of(".."@);
        if k < path_parts(a).len() {
            assert(path_parts(a)[k] == ".."@);
        } else {
            assert(path_parts(b)[k - path_parts(a).len()] == ".."@);
        }
    }
}

/// The name of a file is what follows the last slash of its path.
pub proof fn law_file_name(folder: Seq<char>, name: Seq<char>)
    requires
        !name.contains('/'),
        name.len() > 0,
        name != "."@,
    ensures
        name != ".."@ ==> last_name(name) == Some(name) && last_name(folder + "/"@ + name) == Some(
            name,
        ),
        name == ".."@ ==> last_name(name) is None && last_name(folder + "/"@ + name) is None,
{
    law_part_alone(name);
    law_parts_across_slash(folder, name);
    assert((path_parts(folder) + seq![name]).last() == name);
}

// ---------------------------------------------------------------------------
// Files that are not read
// ---------------------------------------------------------------------------

proof fn lemma_blocked_by(path: Seq<char>, prefixes: Seq<Seq<char>>)
    ensures
        blocked_by(path, prefixes) is Some <==> exists|i: int|
            0 <= i < prefixes.len() && (#[trigger] prefixes[i]).is_prefix_of(path),
        blocked_by(path, prefixes) matches Some(prefix) ==> exists|i: int|
            0 <= i < prefixes.len() && #[trigger] prefixes[i] == prefix && prefix.is_prefix_of(path)
                && forall|k: int| 0 <= k < i ==> !(#[trigger] prefixes[k]).is_prefix_of(path),
    decreases prefixes.len(),
{
    if prefixes.len() > 0 {
        let front = prefixes.drop_last();
        let n = prefixes.len() - 1;
        lemma_blocked_by(path, front);
        assert(prefixes[n] == prefixes.last());
        if blocked_by(path, front) is Some {
            let prefix = blocked_by(path, front)->Some_0;
            let i = choose|i: int|
                0 <= i < front.len() && #[trigger] front[i] == prefix && prefix.is_prefix_of(path)
                    && forall|k: int| 0 <= k < i ==> !(#[trigger] front[k]).is_prefix_of(path);
            assert(prefixes[i] == prefix);
            assert forall|k: int| 0 <= k < i implies !(#[trigger] prefixes[k]).is_prefix_of(
                path,
            ) by {
                assert(front[k] == prefixes[k]);
            }
        } else {
            assert forall|k: int| 0 <= k < n implies !(#[trigger] prefixes[k]).is_prefix_of(
                path,
            ) by {
                assert(front[k] == prefixes[k]);
            }
        }
    }
}

/// A file below one of the prefixes is refused, and the first such prefix named.
pub proof fn law_prefixes_are_refused(path: Seq<char>, prefixes: Seq<Seq<char>>, i: int)
    requires
        0 <= i < prefixes.len(),
        prefixes[i].is_prefix_of(path),
        forall|k: int| 0 <= k < i ==> !(#[trigger] prefixes[k]).is_prefix_of(path),
    ensures
        refused_read(path, prefixes) == Some(
            prefixes[i]
                + " is excluded from Mason's reads — it holds build output or factory state, not product source"@,
        ),
{
    lemma_blocked_by(path, prefixes);
    let prefix = blocked_by(path, prefixes)->Some_0;
    let k = choose|k: int|
        0 <= k < prefixes.len() && #[trigger] prefixes[k] == prefix && prefix.is_prefix_of(path)
            && forall|j: int| 0 <= j < k ==> !(#[trigger] prefixes[j]).is_prefix_of(path);
    assert(k == i) by {
        if k < i {
            assert(!prefixes[k].is_prefix_of(path));
        } else if i < k {
            assert(!prefixes[i].is_prefix_of(path));
        }
    }
}

/// Below no prefix, a file is refused exactly where its name, in lower case, is
/// one of these, begins with `.env.`, or has one of four endings.
pub proof fn law_credentials_are_refused(path: Seq<char>, prefixes: Seq<Seq<char>>)
    requires
        forall|k: int| 0 <= k < prefixes.len() ==> !(#[trigger] prefixes[k]).is_prefix_of(path),
    ensures
        refused_read(path, prefixes) is Some <==> (last_name(path) matches Some(name) && ({
            let low = lowered(name);
            ||| low == ".env"@
            ||| low == "credentials.json"@
            ||| low == "credentials"@
            ||| low == ".netrc"@
            ||| low == ".npmrc"@
            ||| low == ".pypirc"@
            ||| low == "id_rsa"@
            ||| low == "id_ed25519"@
            ||| ".env."@.is_prefix_of(low)
            ||| ".pem"@.is_suffix_of(low)
            ||| ".key"@.is_suffix_of(low)
            ||| ".p12"@.is_suffix_of(low)
            ||| ".pfx"@.is_suffix_of(low)
        })),
        refused_read(path, prefixes) matches Some(reason) ==> reason == lowered(
            last_name(path)->Some_0,
        )
            + " holds credentials and is never shared with a model. Ask the operator for any value you need from it."@,
{
    lemma_blocked_by(path, prefixes);
    reveal_strlit(".env");
    reveal_strlit(".env.");
    reveal_strlit(".pem");
    reveal_strlit(".key");
    reveal_strlit(".p12");
    reveal_strlit(".pfx");
    reveal_strlit("credentials.json");
    reveal_strlit("credentials");
    reveal_strlit(".netrc");
    reveal_strlit(".npmrc");
    reveal_strlit(".pypirc");
    reveal_strlit("id_rsa");
    reveal_strlit("id_ed25519");
    assert(last_name(path) is None ==> lower_name(path).len() == 0);
}

/// The prefixes that go without saying are those of build output.
pub proof fn law_blocked_prefixes()
    ensures
        blocked_prefixes() == seq!["target/"@, "node_modules/"@],
{
}

// ---------------------------------------------------------------------------
// Markers that were nearly hit
// ---------------------------------------------------------------------------

/// Letters and numerals of ASCII are these; beyond it Unicode decides.
pub proof fn law_letters_and_numerals(c: char)
    ensures
        c <= '\u{7f}' ==> (alphanumeric(c) <==> 'a' <= c <= 'z' || 'A' <= c <= 'Z' || '0' <= c
            <= '9'),
        c > '\u{7f}' ==> alphanumeric(c) == letter_or_numeral(c),
{
}

/// Whether `word` is one that markers are made of.
pub open spec fn marker_word(word: Seq<char>) -> bool {
    ||| word == "END CONTENT"@
    ||| word == "END FILE"@
    ||| word == "CONTENT"@
    ||| word == "TOOL"@
    ||| word == "FILE"@
    ||| word == "PATCH"@
}

/// Whether a word ends before `rest`.
pub open spec fn word_ends(rest: Seq<char>) -> bool {
    rest.len() > 0 ==> !alphanumeric(rest[0]) && rest[0] != '_'
}

/// That many `#`.
pub open spec fn hashes(n: nat) -> Seq<char> {
    Seq::new(n, |i: int| '#')
}

proof fn lemma_hash_count(n: nat, rest: Seq<char>)
    requires
        rest.len() > 0 ==> rest[0] != '#',
    ensures
        hash_count(hashes(n) + rest) == n,
    decreases n,
{
    if n > 0 {
        lemma_hash_count((n - 1) as nat, rest);
        assert((hashes(n) + rest).drop_first() =~= hashes((n - 1) as nat) + rest);
        assert((hashes(n) + rest).first() == '#');
    } else {
        assert(hashes(0) + rest =~= rest);
    }
}

proof fn lemma_hashes_in_front(s: Seq<char>)
    ensures
        hash_count(s) <= s.len(),
        s == hashes(hash_count(s)) + s.skip(hash_count(s) as int),
    decreases s.len(),
{
    if s.len() > 0 && s.first() == '#' {
        let rest = s.drop_first();
        lemma_hashes_in_front(rest);
        let n = hash_count(rest);
        assert(s.skip(n as int + 1) =~= rest.skip(n as int));
        assert(s =~= seq!['#'] + rest);
        assert(hashes(n + 1) =~= seq!['#'] + hashes(n));
        assert(s =~= hashes(n + 1) + s.skip(n as int + 1));
    } else {
        assert(s =~= hashes(0) + s.skip(0));
    }
}

proof fn lemma_trimmed_behind_space(gap: Seq<char>, rest: Seq<char>)
    requires
        all_space(gap),
        rest.len() > 0,
        !is_space(rest[0]),
    ensures
        trimmed_start(gap + rest) == rest,
    decreases gap.len(),
{
    if gap.len() == 0 {
        assert(gap + rest =~= rest);
    } else {
        assert(is_space(gap[0]));
        assert((gap + rest).drop_first() =~= gap.drop_first() + rest);
        assert forall|i: int| 0 <= i < gap.drop_first().len() implies is_space(
            #[trigger] gap.drop_first()[i],
        ) by {
            assert(gap.drop_first()[i] == gap[i + 1]);
        }
        lemma_trimmed_behind_space(gap.drop_first(), rest);
    }
}

proof fn lemma_marker_words(word: Seq<char>)
    requires
        marker_word(word),
    ensures
        word.len() > 0,
        word[0] == 'E' || word[0] == 'C' || word[0] == 'T' || word[0] == 'F' || word[0] == 'P',
        forall|other: Seq<char>| #[trigger]
            marker_word(other) && (word.is_prefix_of(other) || other.is_prefix_of(word)) ==> other
                == word,
{
    reveal_strlit("END CONTENT");
    reveal_strlit("END FILE");
    reveal_strlit("CONTENT");
    reveal_strlit("TOOL");
    reveal_strlit("FILE");
    reveal_strlit("PATCH");
    assert forall|other: Seq<char>| #[trigger]
        marker_word(other) && (word.is_prefix_of(other) || other.is_prefix_of(word)) implies other
        == word by {
        assert(word[0] == other[0]);
        if word[0] == 'E' && word != other {
            assert(word[4] == other[4]);
        }
    }
}

proof fn lemma_one_word_only(rest: Seq<char>, word: Seq<char>)
    requires
        marker_word(word),
        word.is_prefix_of(rest),
    ensures
        forall|other: Seq<char>| #[trigger]
            marker_word(other) && other != word ==> !other.is_prefix_of(rest),
{
    assert forall|other: Seq<char>| #[trigger]
        marker_word(other) && other != word implies !other.is_prefix_of(rest) by {
        if other.is_prefix_of(rest) {
            lemma_marker_words(word);
            assert forall|i: int| 0 <= i < word.len() implies word[i] == rest[i] by {
                assert(rest.subrange(0, word.len() as int)[i] == rest[i]);
            }
            assert forall|i: int| 0 <= i < other.len() implies other[i] == rest[i] by {
                assert(rest.subrange(0, other.len() as int)[i] == rest[i]);
            }
            if word.len() <= other.len() {
                assert(word =~= other.subrange(0, word.len() as int));
                assert(word.is_prefix_of(other));
            } else {
                assert(other =~= word.subrange(0, other.len() as int));
                assert(other.is_prefix_of(word));
            }
        }
    }
}

/// Two to six `#`, any white space, and a word of the markers in any case is a
/// marker that was nearly hit.
pub proof fn law_near_miss_is_found(n: nat, gap: Seq<char>, written: Seq<char>, rest: Seq<char>)
    requires
        2 <= n <= 6,
        all_space(gap),
        marker_word(raised(written)),
        word_ends(rest),
    ensures
        near_miss(hashes(n) + gap + written + rest) == Some(raised(written)),
{
    let word = raised(written);
    let tail = written + rest;
    let mark = hashes(n) + gap + written + rest;
    lemma_marker_words(word);
    assert(written[0] != '#' && !is_space(written[0])) by {
        assert(word[0] == raised(written)[0]);
    }
    assert(mark =~= hashes(n) + (gap + tail));
    assert((gap + tail)[0] != '#') by {
        if gap.len() > 0 {
            assert(is_space(gap[0]));
        }
    }
    lemma_hash_count(n, gap + tail);
    assert(mark.skip(n as int) =~= gap + tail);
    assert(tail[0] == written[0]);
    lemma_trimmed_behind_space(gap, tail);
    let up = raised(tail);
    assert(up =~= word + raised(rest));
    assert(word =~= up.subrange(0, word.len() as int));
    assert(begins_with_word(up, word)) by {
        if up.len() > word.len() {
            assert(up[word.len() as int] == raised(rest)[0]);
        }
    }
    lemma_one_word_only(up, word);
    assert(marker_word("END CONTENT"@) && marker_word("END FILE"@) && marker_word("CONTENT"@)
        && marker_word("TOOL"@) && marker_word("FILE"@) && marker_word("PATCH"@));
}

/// A marker that was nearly hit is made of two to six `#`, any white space, and a
/// word of the markers in some case.
pub proof fn law_near_miss_is_near(mark: Seq<char>) -> (parts: (
    nat,
    Seq<char>,
    Seq<char>,
    Seq<char>,
))
    requires
        near_miss(mark) is Some,
    ensures
        2 <= parts.0 <= 6,
        all_space(parts.1),
        marker_word(raised(parts.2)),
        word_ends(parts.3),
        mark == hashes(parts.0) + parts.1 + parts.2 + parts.3,
        near_miss(mark) == Some(raised(parts.2)),
{
    let n = hash_count(mark);
    let word = near_miss(mark)->Some_0;
    lemma_hashes_in_front(mark);
    let behind = mark.skip(n as int);
    let gap = law_trimmed_start(behind);
    let tail = trimmed_start(behind);
    let up = raised(tail);
    assert(begins_with_word(up, word));
    let written = tail.take(word.len() as int);
    let rest = tail.skip(word.len() as int);
    assert(raised(written) =~= word) by {
        assert forall|i: int| 0 <= i < word.len() implies raised(written)[i] == word[i] by {
            assert(up.subrange(0, word.len() as int)[i] == up[i]);
        }
    }
    if rest.len() > 0 {
        assert(up[word.len() as int] == raised(rest)[0]);
    }
    assert(mark =~= hashes(n) + gap + written + rest);
    (n, gap, written, rest)
}

/// A line looks like a JSON edit proposal where one of two keys stands in it.
pub proof fn law_json_edit_proposal(mark: Seq<char>)
    ensures
        json_edit_proposal(mark) <==> occurs(mark, "\"edits\""@) || occurs(mark, "\"path\":"@),
{
}

/// A line is reported in these words, with the line as it is shown: as a marker
/// that was nearly hit or else as a JSON edit proposal, and a line that is a
/// marker is not reported.
pub proof fn law_unreadable_wording(mark: Seq<char>, number: nat, shown: Seq<char>)
    ensures
        unreadable_wording(mark, number, shown) == if "### TOOL:"@.is_prefix_of(mark) || mark
            == "### END CONTENT"@ {
            None::<Seq<char>>
        } else {
            match near_miss(mark) {
                Some(word) => Some(
                    "line "@ + decimal(number) + ": "@ + shown + " looks like a '"@ + word
                        + "' marker but is not one — this lane reads only '### TOOL:', '### CONTENT' and '### END CONTENT', spelled exactly, with three hashes and in upper case"@,
                ),
                None => if occurs(mark, "\"edits\""@) || occurs(mark, "\"path\":"@) {
                    Some(
                        "line "@ + decimal(number) + ": "@ + shown
                            + " looks like a JSON edit proposal. That transport is not read in the tool loop — every write must be a '### TOOL: write_file' call"@,
                    )
                } else {
                    None
                },
            }
        },
{
}

/// Whether a line looks like a write that cannot be read.
pub open spec fn suspect(line: Seq<char>) -> bool {
    let mark = trimmed(line);
    &&& !("### TOOL:"@.is_prefix_of(mark))
    &&& mark != "### END CONTENT"@
    &&& near_miss(mark) is Some || occurs(mark, "\"edits\""@) || occurs(mark, "\"path\":"@)
}

proof fn lemma_harmless_lines(before: Seq<Seq<char>>)
    requires
        forall|i: int|
            0 <= i < before.len() ==> trimmed(#[trigger] before[i]) != "### CONTENT"@ && !suspect(
                before[i],
            ),
    ensures
        read::<UnreadableMachine>(before, 0, false) == Ok::<bool, Seq<char>>(false),
    decreases before.len(),
{
    if before.len() > 0 {
        let front = before.drop_last();
        assert forall|i: int| 0 <= i < front.len() implies trimmed(#[trigger] front[i])
            != "### CONTENT"@ && !suspect(front[i]) by {
            assert(front[i] == before[i]);
        }
        lemma_harmless_lines(front);
        assert(!suspect(before[before.len() - 1]));
    }
}

/// The first line outside any content block that looks like a write which cannot
/// be read is reported, with its number, the line as it is shown, and what it
/// looks like; and where no line does, nothing is.
pub proof fn law_suspect_line_is_reported(
    before: Seq<Seq<char>>,
    line: Seq<char>,
    after: Seq<Seq<char>>,
)
    requires
        forall|i: int|
            0 <= i < before.len() ==> trimmed(#[trigger] before[i]) != "### CONTENT"@ && !suspect(
                before[i],
            ) && !before[i].contains('\n'),
        forall|i: int| 0 <= i < after.len() ==> !(#[trigger] after[i]).contains('\n'),
        !line.contains('\n'),
        trimmed(line) != "### CONTENT"@,
    ensures
        ({
            let raw = join(before + seq![line] + after, seq!['\n']);
            let mark = trimmed(line);
            &&& suspect(line) && near_miss(mark) is Some ==> unreadable_write(raw) == Some(
                "line "@ + decimal(before.len() + 1) + ": "@ + quoted(mark) + " looks like a '"@
                    + near_miss(mark)->Some_0
                    + "' marker but is not one — this lane reads only '### TOOL:', '### CONTENT' and '### END CONTENT', spelled exactly, with three hashes and in upper case"@,
            )
            &&& suspect(line) && near_miss(mark) is None ==> unreadable_write(raw) == Some(
                "line "@ + decimal(before.len() + 1) + ": "@ + quoted(mark)
                    + " looks like a JSON edit proposal. That transport is not read in the tool loop — every write must be a '### TOOL: write_file' call"@,
            )
            &&& !suspect(line) && after.len() == 0 ==> unreadable_write(raw) is None
        }),
{
    let all = before + seq![line] + after;
    assert forall|i: int| 0 <= i < all.len() implies !(#[trigger] all[i]).contains('\n') by {
        if i < before.len() {
            assert(all[i] == before[i]);
        } else if i > before.len() {
            assert(all[i] == after[i - before.len() - 1]);
        }
    }
    lemma_split_of_join(all, '\n');
    lemma_harmless_lines(before);
    lemma_read_concat::<UnreadableMachine>(before + seq![line], after, 0, false);
    assert((before + seq![line]).drop_last() =~= before);
    assert((before + seq![line]).last() == line);
    if after.len() == 0 {
        assert(all =~= before + seq![line]);
    }
    assert(split_lines(join(all, seq!['\n'])) == all);
}

} // verus!
