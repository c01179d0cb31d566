//! What the library has from other crates and from the standard library
//! without proof.

use vstd::prelude::*;

use crate::pairs::{ordered_keys, pair_texts};
use crate::text::{optional_text, text_outcome, texts};

verus! {

/// What the `Debug` format of a string shows: the text in double quotes, with
/// the escapes of `char::escape_debug`.
pub uninterp spec fn quoted(s: Seq<char>) -> Seq<char>;

/// `<str as std::fmt::Debug>::fmt` through `format!`: the result is a function
/// of the text alone, named `quoted`. Which characters are escaped is left to
/// the standard library.
#[verifier::external_body]
pub(crate) fn quoted_text(s: &str) -> (out: String)
    ensures
        out@ == quoted(s@),
{
    format!("{:?}", s)
}

/// Whether Unicode counts a character outside ASCII as a letter or a numeral.
pub uninterp spec fn letter_or_numeral(c: char) -> bool;

/// `char::is_alphanumeric`: the result is a function of the character alone,
/// named `letter_or_numeral`. Which characters have the properties is left to
/// the Unicode tables of the standard library.
#[verifier::external_body]
pub(crate) fn is_letter_or_numeral(c: char) -> (answer: bool)
    ensures
        answer == letter_or_numeral(c),
{
    c.is_alphanumeric()
}

// ---------------------------------------------------------------------------
// typedb_driver
// ---------------------------------------------------------------------------

/// What is wrong with a text as the address of a TypeDB server, if something is:
/// the wording of the error, and that of the error behind it, if there is one.
pub uninterp spec fn address_problem(url: Seq<char>) -> Option<(Seq<char>, Option<Seq<char>>)>;

/// What the wordings of an error and of the error behind it hold.
pub open spec fn problem_model(problem: Option<(String, Option<String>)>) -> Option<
    (Seq<char>, Option<Seq<char>>),
> {
    match problem {
        Some((error, source)) => Some((error@, optional_text(source))),
        None => None,
    }
}

/// Calls `typedb_driver::Addresses::try_from_address_str`, which reads one
/// address of a server. Claims that whether the text is accepted, and the
/// wordings of the error and of its source, depend on the text alone. The source
/// of such an error has no source of its own.
#[verifier::external_body]
pub(crate) fn address_problem_text(url: &str) -> (out: Option<(String, Option<String>)>)
    ensures
        problem_model(out) == address_problem(url@),
{
    typedb_driver::Addresses::try_from_address_str(url).err().map(
        |error|
            {
                let source = std::error::Error::source(&error).map(|source| source.to_string());
                (error.to_string(), source)
            },
    )
}

// ---------------------------------------------------------------------------
// serde_json
// ---------------------------------------------------------------------------

/// A list of texts as a JSON array, or why it cannot be written.
pub uninterp spec fn json_list(list: Seq<Seq<char>>) -> Result<Seq<char>, Seq<char>>;

/// Calls `serde_json::to_string` on a list of strings. Claims that the text
/// depends on the strings alone, and that there is one: writing fails only for a
/// value that refuses to be written and for a key that is no string.
#[verifier::external_body]
pub(crate) fn write_json_list(list: &Vec<String>) -> (out: Result<String, String>)
    ensures
        out is Ok,
        text_outcome(out) == json_list(texts(list@)),
{
    serde_json::to_string(list).map_err(|error| error.to_string())
}

/// Texts under keys as a JSON object, or why they cannot be written.
pub uninterp spec fn json_object(pairs: Seq<(Seq<char>, Seq<char>)>) -> Result<
    Seq<char>,
    Seq<char>,
>;

/// The texts under keys that a JSON object of strings holds, where the text is
/// one.
pub uninterp spec fn json_pairs(text: Seq<char>) -> Option<Seq<(Seq<char>, Seq<char>)>>;

/// Calls `serde_json::to_string` on a `BTreeMap` of strings. Claims that the text
/// depends on the pairs alone, that there is one, as for a list of strings, and
/// that it is read back as the same pairs.
#[verifier::external_body]
pub(crate) fn write_json_object(pairs: &Vec<(String, String)>) -> (out: Result<String, String>)
    requires
        ordered_keys(pair_texts(pairs@)),
    ensures
        out is Ok,
        text_outcome(out) == json_object(pair_texts(pairs@)),
        out matches Ok(text) ==> json_pairs(text@) == Some(pair_texts(pairs@)),
{
    let map: std::collections::BTreeMap<&String, &String> = pairs.iter().map(
        |pair| (&pair.0, &pair.1),
    ).collect();
    serde_json::to_string(&map).map_err(|error| error.to_string())
}

/// Calls `serde_json::from_str` for a `BTreeMap` of strings. Claims that the
/// pairs, or that there are none, depend on the text alone, and that the keys
/// come in order, none of them twice.
#[verifier::external_body]
pub(crate) fn read_json_pairs(text: &str) -> (out: Option<Vec<(String, String)>>)
    ensures
        out is Some <==> json_pairs(text@) is Some,
        out matches Some(pairs) ==> json_pairs(text@) == Some(pair_texts(pairs@)),
        out matches Some(pairs) ==> ordered_keys(pair_texts(pairs@)),
{
    serde_json::from_str::<std::collections::BTreeMap<String, String>>(text).ok().map(
        |map| map.into_iter().collect(),
    )
}

/// The compact text of the JSON document that a text denotes, or why it denotes
/// none.
pub uninterp spec fn json_document(text: Seq<char>) -> Result<Seq<char>, Seq<char>>;

/// Calls `serde_json::from_str` for a `serde_json::Value`, and gives the value in
/// its compact text. Claims that the text, or the wording of why there is none,
/// depends on the argument alone. What is left unsaid: that a compact text is
/// read back as itself, since a decimal fraction can come back as its neighbour.
#[verifier::external_body]
pub(crate) fn read_json_document(text: &str) -> (out: Result<String, String>)
    ensures
        text_outcome(out) == json_document(text@),
{
    serde_json::from_str::<serde_json::Value>(text).map(|value| value.to_string()).map_err(
        |error| error.to_string(),
    )
}

// ---------------------------------------------------------------------------
// chrono
// ---------------------------------------------------------------------------

/// A moment in the form of RFC 3339, in UTC, where the calendar reaches it.
pub uninterp spec fn rfc3339(seconds: int, nanos: int) -> Option<Seq<char>>;

/// The moment that a text in the form of RFC 3339 denotes, as the seconds since
/// 1970 and the nanoseconds on top, or why it denotes none.
pub uninterp spec fn rfc3339_moment(text: Seq<char>) -> Result<(int, int), Seq<char>>;

/// A moment that was read.
pub open spec fn moment_at(seconds: int, nanos: int) -> Result<(int, int), Seq<char>> {
    Ok((seconds, nanos))
}

/// What a moment that was read, or the wording of why there is none, holds.
pub open spec fn moment_outcome(outcome: Result<(i64, u32), String>) -> Result<
    (int, int),
    Seq<char>,
> {
    match outcome {
        Ok(moment) => Ok((moment.0 as int, moment.1 as int)),
        Err(error) => Err(error@),
    }
}

/// Whether a moment lies in a year that is written with four digits, and outside
/// a leap second.
pub open spec fn written_year(seconds: int, nanos: int) -> bool {
    -62167219200 <= seconds <= 253402300799 && 0 <= nanos < 1000000000
}

/// Calls `chrono::DateTime::from_timestamp`, and on what it gives
/// `chrono::DateTime::to_rfc3339`. Claims that the text depends on the moment
/// alone, and that a moment from the year 0 to the year 9999 outside a leap
/// second has a text, which is read back as the same moment.
#[verifier::external_body]
pub(crate) fn write_rfc3339(seconds: i64, nanos: u32) -> (out: Option<String>)
    ensures
        optional_text(out) == rfc3339(seconds as int, nanos as int),
        written_year(seconds as int, nanos as int) ==> out is Some,
        written_year(seconds as int, nanos as int) ==> rfc3339_moment(out->Some_0@) == moment_at(
            seconds as int,
            nanos as int,
        ),
{
    chrono::DateTime::from_timestamp(seconds, nanos).map(|moment| moment.to_rfc3339())
}

/// Calls `chrono::DateTime::parse_from_rfc3339` and takes the moment in UTC.
/// Claims that the moment, or the wording of why there is none, depends on the
/// text alone.
#[verifier::external_body]
pub(crate) fn read_rfc3339(text: &str) -> (out: Result<(i64, u32), String>)
    ensures
        moment_outcome(out) == rfc3339_moment(text@),
{
    chrono::DateTime::parse_from_rfc3339(text).map(
        |moment| {
            let utc = moment.with_timezone(&chrono::Utc);
            (utc.timestamp(), utc.timestamp_subsec_nanos())
        },
    ).map_err(|error| error.to_string())
}

// ---------------------------------------------------------------------------
// sha2
// ---------------------------------------------------------------------------

/// The SHA-256 digest of some bytes.
pub uninterp spec fn sha256(bytes: Seq<u8>) -> Seq<u8>;

/// Calls `sha2::Sha256::digest`. Claims that the digest depends on the bytes
/// alone and has 32 bytes.
#[verifier::external_body]
pub(crate) fn sha256_digest(bytes: &Vec<u8>) -> (out: Vec<u8>)
    ensures
        out@ == sha256(bytes@),
        out@.len() == 32,
{
    <sha2::Sha256 as sha2::Digest>::digest(bytes).to_vec()
}

} // verus!
