//! What the tool loop does not let through: messages that try to write in a way
//! that it cannot read, and reads of files that are not for the model.

use vstd::prelude::*;
use vstd::string::*;

use crate::lines::{
    lemma_read_next, lemma_read_stops, read, split_at_char, split_lines, LineMachine,
};
use crate::mason_tools::{CONTENT_MARKER, END_CONTENT_MARKER, TOOL_MARKER};
use crate::numeral::{decimal, decimal_text};
use crate::outside::{is_letter_or_numeral, letter_or_numeral, quoted, quoted_text};
use crate::search::{contains, occurs};
use crate::text::{
    chars_of, ends_with, lowered, optional_text, raised, same, starts_with, texts, to_lower,
    to_upper, trim, trim_start, trimmed, trimmed_start,
};
use crate::workspace::{file_name, last_name};

verus! {

// ---------------------------------------------------------------------------
// Markers that were nearly hit
// ---------------------------------------------------------------------------

/// Whether `c` is a letter or a numeral.
pub open spec fn alphanumeric(c: char) -> bool {
    if c as u32 <= 0x7f {
        'a' <= c <= 'z' || 'A' <= c <= 'Z' || '0' <= c <= '9'
    } else {
        letter_or_numeral(c)
    }
}

/// Whether `c` is a letter or a numeral.
pub fn is_alphanumeric(c: char) -> (answer: bool)
    ensures
        answer == alphanumeric(c),
{
    if c as u32 <= 0x7f {
        ('a' <= c && c <= 'z') || ('A' <= c && c <= 'Z') || ('0' <= c && c <= '9')
    } else {
        is_letter_or_numeral(c)
    }
}

/// The number of `#` at the front of `s`.
pub open spec fn hash_count(s: Seq<char>) -> nat
    decreases s.len(),
{
    if s.len() > 0 && s.first() == '#' {
        1 + hash_count(s.drop_first())
    } else {
        0
    }
}

/// Whether `s` begins with `word` and the word ends there: neither a letter, a
/// numeral nor an underscore follows.
pub open spec fn begins_with_word(s: Seq<char>, word: Seq<char>) -> bool {
    &&& word.is_prefix_of(s)
    &&& s.len() > word.len() ==> !alphanumeric(s[word.len() as int]) && s[word.len() as int] != '_'
}

/// The marker that the trimmed line `mark` resembles: two to six `#`, then one
/// of the words that markers are made of, in any case.
pub open spec fn near_miss(mark: Seq<char>) -> Option<Seq<char>> {
    let hashes = hash_count(mark);
    let rest = raised(trimmed_start(mark.skip(hashes as int)));
    if !(2 <= hashes <= 6) {
        None
    } else if begins_with_word(rest, "END CONTENT"@) {
        Some("END CONTENT"@)
    } else if begins_with_word(rest, "END FILE"@) {
        Some("END FILE"@)
    } else if begins_with_word(rest, "CONTENT"@) {
        Some("CONTENT"@)
    } else if begins_with_word(rest, "TOOL"@) {
        Some("TOOL"@)
    } else if begins_with_word(rest, "FILE"@) {
        Some("FILE"@)
    } else if begins_with_word(rest, "PATCH"@) {
        Some("PATCH"@)
    } else {
        None
    }
}

fn leading_hashes(s: &str) -> (count: usize)
    ensures
        count == hash_count(s@),
        count <= s@.len(),
{
    let chars = chars_of(s);
    let mut count: usize = 0;
    assert(s@.skip(0) == s@);
    while count < chars.len() && chars[count] == '#'
        invariant
            chars@ == s@,
            count <= chars.len(),
            hash_count(s@) == count + hash_count(s@.skip(count as int)),
        decreases chars.len() - count,
    {
        assert(s@.skip(count as int).drop_first() == s@.skip(count + 1));
        count = count + 1;
    }
    count
}

fn is_word_at_start(s: &str, word: &str) -> (answer: bool)
    ensures
        answer == begins_with_word(s@, word@),
{
    if !starts_with(s, word) {
        return false;
    }
    let chars = chars_of(s);
    let length: usize = chars_of(word).len();
    if chars.len() > length {
        let next = chars[length];
        !is_alphanumeric(next) && next != '_'
    } else {
        true
    }
}

/// The marker that a trimmed line resembles without being it.
pub fn near_miss_marker_word(mark: &str) -> (out: Option<&'static str>)
    ensures
        out is Some <==> near_miss(mark@) is Some,
        out matches Some(word) ==> near_miss(mark@) == Some(word@),
{
    let hashes: usize = leading_hashes(mark);
    if hashes < 2 || hashes > 6 {
        return None;
    }
    let length: usize = chars_of(mark).len();
    let after = mark.substring_char(hashes, length);
    assert(after@ == mark@.skip(hashes as int));
    let rest = to_upper(trim_start(after));
    let rest = rest.as_str();
    if is_word_at_start(rest, "END CONTENT") {
        Some("END CONTENT")
    } else if is_word_at_start(rest, "END FILE") {
        Some("END FILE")
    } else if is_word_at_start(rest, "CONTENT") {
        Some("CONTENT")
    } else if is_word_at_start(rest, "TOOL") {
        Some("TOOL")
    } else if is_word_at_start(rest, "FILE") {
        Some("FILE")
    } else if is_word_at_start(rest, "PATCH") {
        Some("PATCH")
    } else {
        None
    }
}

/// Whether a line shows one of the two keys of a JSON edit proposal.
pub open spec fn json_edit_proposal(mark: Seq<char>) -> bool {
    occurs(mark, "\"edits\""@) || occurs(mark, "\"path\":"@)
}

/// Whether a line looks like a JSON edit proposal.
pub fn looks_like_json_edit_proposal(mark: &str) -> (answer: bool)
    ensures
        answer == json_edit_proposal(mark@),
{
    contains(mark, "\"edits\"") || contains(mark, "\"path\":")
}

// ---------------------------------------------------------------------------
// Writes that cannot be read
// ---------------------------------------------------------------------------

/// What is wrong with a line outside any content block, if something is, given
/// the line as it is shown.
pub open spec fn unreadable_wording(mark: Seq<char>, number: nat, shown: Seq<char>) -> Option<
    Seq<char>,
> {
    if TOOL_MARKER@.is_prefix_of(mark) || mark == END_CONTENT_MARKER@ {
        None
    } else {
        match near_miss(mark) {
            Some(word) => Some(
                "line "@ + decimal(number) + ": "@ + shown + " looks like a '"@ + word
                    + "' marker but is not one — this lane reads only '### TOOL:', '### CONTENT' and '### END CONTENT', spelled exactly, with three hashes and in upper case"@,
            ),
            None => if json_edit_proposal(mark) {
                Some(
                    "line "@ + decimal(number) + ": "@ + shown
                        + " looks like a JSON edit proposal. That transport is not read in the tool loop — every write must be a '### TOOL: write_file' call"@,
                )
            } else {
                None
            },
        }
    }
}

/// What is wrong with a line outside any content block, if something is.
pub open spec fn unreadable_line(mark: Seq<char>, number: nat) -> Option<Seq<char>> {
    unreadable_wording(mark, number, quoted(mark))
}

/// Looks for a write that the tool loop cannot read. The state tells whether a
/// content block is open; the fault is the wording of what was found.
pub struct UnreadableMachine;

impl LineMachine for UnreadableMachine {
    type State = bool;

    type Fault = Seq<char>;

    open spec fn step(in_content: bool, line: Seq<char>, number: nat) -> Result<bool, Seq<char>> {
        let mark = trimmed(line);
        if in_content {
            Ok(mark != END_CONTENT_MARKER@)
        } else if mark == CONTENT_MARKER@ {
            Ok(true)
        } else {
            match unreadable_line(mark, number) {
                Some(problem) => Err(problem),
                None => Ok(false),
            }
        }
    }
}

/// The wording of the first write in the message that cannot be read.
pub open spec fn unreadable_write(raw: Seq<char>) -> Option<Seq<char>> {
    match read::<UnreadableMachine>(split_lines(raw), 0, false) {
        Ok(_) => None,
        Err(problem) => Some(problem),
    }
}

/// What is wrong with a line outside any content block, if something is, given
/// the line as it is shown.
pub fn unreadable_line_wording(mark: &str, number: usize, shown: &str) -> (out: Option<String>)
    ensures
        optional_text(out) == unreadable_wording(mark@, number as nat, shown@),
{
    if starts_with(mark, TOOL_MARKER) || same(mark, END_CONTENT_MARKER) {
        return None;
    }
    match near_miss_marker_word(mark) {
        Some(word) => Some(
            String::from_str("line ").concat(decimal_text(number as u64).as_str()).concat(
                ": ",
            ).concat(shown).concat(" looks like a '").concat(word).concat(
                "' marker but is not one — this lane reads only '### TOOL:', '### CONTENT' and '### END CONTENT', spelled exactly, with three hashes and in upper case",
            ),
        ),
        None => if looks_like_json_edit_proposal(mark) {
            Some(
                String::from_str("line ").concat(decimal_text(number as u64).as_str()).concat(
                    ": ",
                ).concat(shown).concat(
                    " looks like a JSON edit proposal. That transport is not read in the tool loop — every write must be a '### TOOL: write_file' call",
                ),
            )
        } else {
            None
        },
    }
}

fn unreadable_line_text(mark: &str, number: usize) -> (out: Option<String>)
    ensures
        optional_text(out) == unreadable_line(mark@, number as nat),
{
    unreadable_line_wording(mark, number, quoted_text(mark).as_str())
}

/// The wording of the first thing in a message that looks like a write but is
/// none that the tool loop reads. Text inside a content block is the text of a
/// file and is not looked at. Without this a message with no calls would be
/// taken for the model's last word and the write would be lost.
pub fn unreadable_write_marker(raw: &str) -> (out: Option<String>)
    ensures
        out is Some <==> unreadable_write(raw@) is Some,
        out matches Some(problem) ==> unreadable_write(raw@) == Some(problem@),
{
    let mut in_content = false;
    let all = split_at_char(raw, '\n');
    let ghost ls = split_lines(raw@);
    assert(ls.take(0) == Seq::<Seq<char>>::empty());
    for i in 0..all.len()
        invariant
            texts(all@) == ls,
            ls == split_lines(raw@),
            read::<UnreadableMachine>(ls.take(i as int), 0, false) == Ok::<bool, Seq<char>>(
                in_content,
            ),
    {
        proof {
            lemma_read_next::<UnreadableMachine>(ls, 0, false, i as int);
            if read::<UnreadableMachine>(ls.take(i + 1), 0, false) is Err {
                lemma_read_stops::<UnreadableMachine>(ls, 0, false, i + 1);
            }
        }
        assert(all@[i as int]@ == ls[i as int]);
        let mark = trim(all[i].as_str());
        if in_content {
            if same(mark, END_CONTENT_MARKER) {
                in_content = false;
            }
        } else if same(mark, CONTENT_MARKER) {
            in_content = true;
        } else if let Some(problem) = unreadable_line_text(mark, i + 1) {
            return Some(problem);
        }
    }
    assert(ls.take(ls.len() as int) == ls);
    None
}

// ---------------------------------------------------------------------------
// Reads that are refused
// ---------------------------------------------------------------------------

/// The prefixes of paths that hold build output, not product source.
pub open spec fn blocked_prefixes() -> Seq<Seq<char>> {
    seq!["target/"@, "node_modules/"@]
}

/// The prefixes of paths that hold build output, not product source.
pub fn blocked_path_prefixes() -> (out: Vec<String>)
    ensures
        texts(out@) == blocked_prefixes(),
{
    let mut out: Vec<String> = Vec::new();
    out.push("target/".to_owned());
    out.push("node_modules/".to_owned());
    assert(texts(out@) == blocked_prefixes());
    out
}

/// The first of `prefixes` with which `path` begins.
pub open spec fn blocked_by(path: Seq<char>, prefixes: Seq<Seq<char>>) -> Option<Seq<char>>
    decreases prefixes.len(),
{
    if prefixes.len() == 0 {
        None
    } else {
        match blocked_by(path, prefixes.drop_last()) {
            Some(prefix) => Some(prefix),
            None => if prefixes.last().is_prefix_of(path) {
                Some(prefixes.last())
            } else {
                None
            },
        }
    }
}

/// Whether a file of this name, in lower case, holds credentials.
pub open spec fn credential_name(name: Seq<char>) -> bool {
    ||| name == ".env"@
    ||| ".env."@.is_prefix_of(name)
    ||| ".pem"@.is_suffix_of(name)
    ||| ".key"@.is_suffix_of(name)
    ||| ".p12"@.is_suffix_of(name)
    ||| ".pfx"@.is_suffix_of(name)
    ||| name == "credentials.json"@
    ||| name == "credentials"@
    ||| name == ".netrc"@
    ||| name == ".npmrc"@
    ||| name == ".pypirc"@
    ||| name == "id_rsa"@
    ||| name == "id_ed25519"@
}

/// The name of the file that a path leads to, in lower case, or nothing.
pub open spec fn lower_name(path: Seq<char>) -> Seq<char> {
    match last_name(path) {
        Some(name) => lowered(name),
        None => Seq::empty(),
    }
}

/// Why reading the file at a normalized path is refused, if it is.
pub open spec fn refused_read(path: Seq<char>, prefixes: Seq<Seq<char>>) -> Option<Seq<char>> {
    match blocked_by(path, prefixes) {
        Some(prefix) => Some(
            prefix
                + " is excluded from Mason's reads — it holds build output or factory state, not product source"@,
        ),
        None => if credential_name(lower_name(path)) {
            Some(
                lower_name(path)
                    + " holds credentials and is never shared with a model. Ask the operator for any value you need from it."@,
            )
        } else {
            None
        },
    }
}

fn is_credential_name(name: &str) -> (answer: bool)
    ensures
        answer == credential_name(name@),
{
    same(name, ".env") || starts_with(name, ".env.") || ends_with(name, ".pem") || ends_with(
        name,
        ".key",
    ) || ends_with(name, ".p12") || ends_with(name, ".pfx") || same(name, "credentials.json")
        || same(name, "credentials") || same(name, ".netrc") || same(name, ".npmrc") || same(
        name,
        ".pypirc",
    ) || same(name, "id_rsa") || same(name, "id_ed25519")
}

/// Why reading the file at a normalized path is refused, if it is, where paths
/// with one of `prefixes` are not for the model. A refusal is told to the model
/// like any other error of a tool.
pub fn read_refusal_among(normalized: &str, prefixes: &Vec<String>) -> (out: Option<String>)
    ensures
        out is Some <==> refused_read(normalized@, texts(prefixes@)) is Some,
        out matches Some(reason) ==> refused_read(normalized@, texts(prefixes@)) == Some(reason@),
{
    let ghost all = texts(prefixes@);
    assert(all.take(0) == Seq::<Seq<char>>::empty());
    for i in 0..prefixes.len()
        invariant
            all == texts(prefixes@),
            blocked_by(normalized@, all.take(i as int)) is None,
    {
        assert(all.take(i + 1).drop_last() == all.take(i as int));
        assert(all.take(i + 1).last() == prefixes@[i as int]@);
        if starts_with(normalized, prefixes[i].as_str()) {
            proof {
                lemma_blocked_stays(normalized@, all, i + 1);
            }
            return Some(
                prefixes[i].clone().concat(
                    " is excluded from Mason's reads — it holds build output or factory state, not product source",
                ),
            );
        }
    }
    assert(all.take(all.len() as int) == all);
    let name = match file_name(normalized) {
        Some(name) => to_lower(name.as_str()),
        None => String::new(),
    };
    if is_credential_name(name.as_str()) {
        Some(
            name.concat(
                " holds credentials and is never shared with a model. Ask the operator for any value you need from it.",
            ),
        )
    } else {
        None
    }
}

proof fn lemma_blocked_stays(path: Seq<char>, prefixes: Seq<Seq<char>>, n: int)
    requires
        0 <= n <= prefixes.len(),
        blocked_by(path, prefixes.take(n)) is Some,
    ensures
        blocked_by(path, prefixes) == blocked_by(path, prefixes.take(n)),
    decreases prefixes.len() - n,
{
    if n == prefixes.len() {
        assert(prefixes.take(n) == prefixes);
    } else {
        assert(prefixes.take(n + 1).drop_last() == prefixes.take(n));
        lemma_blocked_stays(path, prefixes, n + 1);
    }
}

/// Why reading the file at a normalized path is refused, if it is.
pub fn read_refusal(normalized: &str) -> (out: Option<String>)
    ensures
        out is Some <==> refused_read(normalized@, blocked_prefixes()) is Some,
        out matches Some(reason) ==> refused_read(normalized@, blocked_prefixes()) == Some(reason@),
{
    let prefixes = blocked_path_prefixes();
    read_refusal_among(normalized, &prefixes)
}

} // verus!
