//! Text as a sequence of characters: white space and trimming, prefixes and
//! suffixes, ASCII case, equality and length in bytes, each with its meaning as a
//! function on `Seq<char>`.

use vstd::prelude::*;
use vstd::string::*;
use vstd::utf8::encode_utf8;

verus! {

/// `String::push` appends one character to the end of the string. This is
/// believed of the standard library, not proved.
pub assume_specification[ String::push ](s: &mut String, c: char)
    ensures
        final(s)@ == old(s)@.push(c),
;

// ---------------------------------------------------------------------------
// Characters
// ---------------------------------------------------------------------------

/// The characters with the Unicode `White_Space` property.
pub open spec fn is_space(c: char) -> bool {
    ||| 0x09 <= c as u32 <= 0x0d
    ||| c as u32 == 0x20
    ||| c as u32 == 0x85
    ||| c as u32 == 0xa0
    ||| c as u32 == 0x1680
    ||| 0x2000 <= c as u32 <= 0x200a
    ||| c as u32 == 0x2028
    ||| c as u32 == 0x2029
    ||| c as u32 == 0x202f
    ||| c as u32 == 0x205f
    ||| c as u32 == 0x3000
}

/// Whether `c` is white space in the sense of Unicode.
pub fn is_whitespace(c: char) -> (answer: bool)
    ensures
        answer == is_space(c),
{
    let n: u32 = c as u32;
    (0x09 <= n && n <= 0x0d) || n == 0x20 || n == 0x85 || n == 0xa0 || n == 0x1680 || (0x2000 <= n
        && n <= 0x200a) || n == 0x2028 || n == 0x2029 || n == 0x202f || n == 0x205f || n == 0x3000
}

/// The lower-case form of an ASCII capital, and every other character as it is.
pub open spec fn lower_char(c: char) -> char {
    if 'A' <= c <= 'Z' {
        ((c as u8) + 32) as char
    } else {
        c
    }
}

/// The capital of an ASCII lower-case letter, and every other character as it is.
pub open spec fn upper_char(c: char) -> char {
    if 'a' <= c <= 'z' {
        ((c as u8) - 32) as char
    } else {
        c
    }
}

// ---------------------------------------------------------------------------
// Between strings and characters
// ---------------------------------------------------------------------------

/// The characters of a string, in order.
pub fn chars_of(s: &str) -> (out: Vec<char>)
    ensures
        out@ == s@,
{
    let mut out: Vec<char> = Vec::new();
    for c in it: s.chars()
        invariant
            out@ == it.seq().take(it.index()),
            it.seq() == s@,
    {
        out.push(c);
        assert(it.seq().take(it.index() + 1) == it.seq().take(it.index()).push(c));
    }
    assert(s@.take(s@.len() as int) == s@);
    out
}

/// The string made of `chars`.
pub fn string_of(chars: &[char]) -> (out: String)
    ensures
        out@ == chars@,
{
    let mut out = String::new();
    for i in 0..chars.len()
        invariant
            out@ == chars@.take(i as int),
    {
        out.push(chars[i]);
        assert(chars@.take(i + 1) == chars@.take(i as int).push(chars@[i as int]));
    }
    assert(chars@.take(chars@.len() as int) == chars@);
    out
}

/// The contents of a list of strings.
pub open spec fn texts(list: Seq<String>) -> Seq<Seq<char>> {
    list.map_values(|s: String| s@)
}

/// What a string that may be missing holds.
pub open spec fn optional_text(s: Option<String>) -> Option<Seq<char>> {
    match s {
        Some(t) => Some(t@),
        None => None,
    }
}

/// What a string, or the wording of why there is none, holds.
pub open spec fn text_outcome(outcome: Result<String, String>) -> Result<Seq<char>, Seq<char>> {
    match outcome {
        Ok(text) => Ok(text@),
        Err(error) => Err(error@),
    }
}

/// The number of bytes that `s` takes in UTF-8.
pub open spec fn byte_count(s: Seq<char>) -> nat {
    encode_utf8(s).len()
}

/// The length of a string in bytes.
pub fn byte_len(s: &str) -> (n: usize)
    ensures
        n == byte_count(s@),
{
    s.as_bytes().len()
}

/// Whether two strings hold the same characters.
pub fn same(a: &str, b: &str) -> (answer: bool)
    ensures
        answer == (a@ == b@),
{
    let x = chars_of(a);
    let y = chars_of(b);
    if x.len() != y.len() {
        return false;
    }
    for i in 0..x.len()
        invariant
            x@ == a@,
            y@ == b@,
            x.len() == y.len(),
            a@.take(i as int) == b@.take(i as int),
    {
        if x[i] != y[i] {
            assert(a@[i as int] != b@[i as int]);
            return false;
        }
        assert(a@.take(i + 1) == a@.take(i as int).push(a@[i as int]));
        assert(b@.take(i + 1) == b@.take(i as int).push(b@[i as int]));
    }
    assert(a@.take(a@.len() as int) == a@);
    assert(b@.take(b@.len() as int) == b@);
    true
}

// ---------------------------------------------------------------------------
// Trimming
// ---------------------------------------------------------------------------

/// `s` without its leading white space.
pub open spec fn trimmed_start(s: Seq<char>) -> Seq<char>
    decreases s.len(),
{
    if s.len() > 0 && is_space(s.first()) {
        trimmed_start(s.drop_first())
    } else {
        s
    }
}

/// `s` without its trailing white space.
pub open spec fn trimmed_end(s: Seq<char>) -> Seq<char>
    decreases s.len(),
{
    if s.len() > 0 && is_space(s.last()) {
        trimmed_end(s.drop_last())
    } else {
        s
    }
}

/// `s` without white space at either end.
pub open spec fn trimmed(s: Seq<char>) -> Seq<char> {
    trimmed_end(trimmed_start(s))
}

/// Whether `s` holds nothing but white space.
pub open spec fn blank(s: Seq<char>) -> bool {
    trimmed(s).len() == 0
}

/// The string without its leading white space.
pub fn trim_start<'a>(s: &'a str) -> (out: &'a str)
    ensures
        out@ == trimmed_start(s@),
{
    let chars = chars_of(s);
    let mut from: usize = 0;
    assert(s@.skip(0) == s@);
    while from < chars.len() && is_whitespace(chars[from])
        invariant
            chars@ == s@,
            from <= chars.len(),
            trimmed_start(s@) == trimmed_start(s@.skip(from as int)),
        decreases chars.len() - from,
    {
        assert(s@.skip(from as int).drop_first() == s@.skip(from + 1));
        from = from + 1;
    }
    s.substring_char(from, chars.len())
}

/// The string without white space at either end.
pub fn trim<'a>(s: &'a str) -> (out: &'a str)
    ensures
        out@ == trimmed(s@),
{
    let front = trim_start(s);
    let chars = chars_of(front);
    let mut to: usize = chars.len();
    assert(front@.take(to as int) == front@);
    while to > 0 && is_whitespace(chars[to - 1])
        invariant
            chars@ == front@,
            to <= chars.len(),
            trimmed_end(front@) == trimmed_end(front@.take(to as int)),
        decreases to,
    {
        assert(front@.take(to as int).drop_last() == front@.take(to - 1));
        to = to - 1;
    }
    assert(front@.subrange(0, to as int) == front@.take(to as int));
    front.substring_char(0, to)
}

/// Whether the string holds nothing but white space.
pub fn is_blank(s: &str) -> (answer: bool)
    ensures
        answer == blank(s@),
{
    trim(s).is_empty()
}

// ---------------------------------------------------------------------------
// Prefixes and suffixes
// ---------------------------------------------------------------------------

/// Whether `s` begins with `prefix`.
pub fn starts_with(s: &str, prefix: &str) -> (answer: bool)
    ensures
        answer == prefix@.is_prefix_of(s@),
{
    let x = chars_of(s);
    let y = chars_of(prefix);
    if x.len() < y.len() {
        return false;
    }
    same(s.substring_char(0, y.len()), prefix)
}

/// Whether `s` ends with `suffix`.
pub fn ends_with(s: &str, suffix: &str) -> (answer: bool)
    ensures
        answer == suffix@.is_suffix_of(s@),
{
    let x = chars_of(s);
    let y = chars_of(suffix);
    if x.len() < y.len() {
        return false;
    }
    same(s.substring_char(x.len() - y.len(), x.len()), suffix)
}

/// What follows `prefix` in `s`, where `s` begins with it.
pub fn strip_prefix<'a>(s: &'a str, prefix: &str) -> (rest: Option<&'a str>)
    ensures
        rest is Some <==> prefix@.is_prefix_of(s@),
        rest matches Some(r) ==> r@ == s@.skip(prefix@.len() as int),
{
    if starts_with(s, prefix) {
        let x = chars_of(s);
        let y = chars_of(prefix);
        Some(s.substring_char(y.len(), x.len()))
    } else {
        None
    }
}

// ---------------------------------------------------------------------------
// ASCII case
// ---------------------------------------------------------------------------

/// `s` with ASCII capitals made lower case.
pub open spec fn lowered(s: Seq<char>) -> Seq<char> {
    s.map_values(|c: char| lower_char(c))
}

/// `s` with ASCII lower-case letters made capitals.
pub open spec fn raised(s: Seq<char>) -> Seq<char> {
    s.map_values(|c: char| upper_char(c))
}

/// The string with ASCII capitals made lower case.
pub fn to_lower(s: &str) -> (out: String)
    ensures
        out@ == lowered(s@),
{
    let mut out = String::new();
    for c in it: s.chars()
        invariant
            it.seq() == s@,
            out@ == lowered(s@.take(it.index())),
    {
        assert(lowered(s@.take(it.index() + 1)) == lowered(s@.take(it.index())).push(
            lower_char(c),
        ));
        if 'A' <= c && c <= 'Z' {
            out.push((c as u8 + 32) as char);
        } else {
            out.push(c);
        }
    }
    assert(s@.take(s@.len() as int) == s@);
    out
}

/// The string with ASCII lower-case letters made capitals.
pub fn to_upper(s: &str) -> (out: String)
    ensures
        out@ == raised(s@),
{
    let mut out = String::new();
    for c in it: s.chars()
        invariant
            it.seq() == s@,
            out@ == raised(s@.take(it.index())),
    {
        assert(raised(s@.take(it.index() + 1)) == raised(s@.take(it.index())).push(upper_char(c)));
        if 'a' <= c && c <= 'z' {
            out.push((c as u8 - 32) as char);
        } else {
            out.push(c);
        }
    }
    assert(s@.take(s@.len() as int) == s@);
    out
}

} // verus!
