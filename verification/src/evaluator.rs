//! What is handed to the metadata evaluator, and how its answer is read.

use vstd::prelude::*;
use vstd::string::{StrSliceExecFns, StringExecFns};

verus! {

/// The query that asks for a package's license: the catalog's name and `#`,
/// the identifier as it was given, and the path to the license record.
pub open spec fn query_of(identifier: Seq<char>) -> Seq<char> {
    "nixpkgs#"@ + identifier + ".meta.license"@
}

/// The evaluator's arguments for a package: the command, the request for JSON
/// output, and the query.
pub open spec fn arguments_of(identifier: Seq<char>) -> Seq<Seq<char>> {
    seq!["eval"@, "--json"@, query_of(identifier)]
}

/// The texts of a list of strings.
pub open spec fn texts(strings: Seq<String>) -> Seq<Seq<char>> {
    strings.map_values(|s: String| s@)
}

/// The text that `String::from_utf8_lossy` decodes bytes into.
pub uninterp spec fn utf8_lossy(bytes: Seq<u8>) -> Seq<char>;

/// Whether `char::is_whitespace` holds of a character: whether it has the
/// Unicode property White_Space.
pub uninterp spec fn is_whitespace(c: char) -> bool;

/// A text without the whitespace at its start.
pub open spec fn trimmed_start(text: Seq<char>) -> Seq<char>
    decreases text.len(),
{
    if text.len() > 0 && is_whitespace(text.first()) {
        trimmed_start(text.drop_first())
    } else {
        text
    }
}

/// A text without the whitespace at its end.
pub open spec fn trimmed_end(text: Seq<char>) -> Seq<char>
    decreases text.len(),
{
    if text.len() > 0 && is_whitespace(text.last()) {
        trimmed_end(text.drop_last())
    } else {
        text
    }
}

/// A text without the whitespace at its start and at its end.
pub open spec fn trimmed(text: Seq<char>) -> Seq<char> {
    trimmed_end(trimmed_start(text))
}

/// The text that an evaluator's standard output stands for: decoded as UTF-8,
/// invalid sequences replaced, without the whitespace around it.
pub open spec fn answer_of(stdout: Seq<u8>) -> Seq<char> {
    trimmed(utf8_lossy(stdout))
}

/// Calls `String::from_utf8_lossy`. Trusted: the result is the named decoding
/// of the bytes.
#[verifier::external_body]
fn decode_lossy(bytes: &Vec<u8>) -> (r: String)
    ensures
        r@ == utf8_lossy(bytes@),
{
    String::from_utf8_lossy(bytes).into_owned()
}

/// Calls `char::is_whitespace`. Trusted: the result is the named property of
/// the character.
#[verifier::external_body]
fn is_space(c: char) -> (r: bool)
    ensures
        r == is_whitespace(c),
{
    c.is_whitespace()
}

/// The part of a text that is left without the whitespace at its start and
/// at its end.
pub fn trim(text: &str) -> (r: &str)
    ensures
        r@ == trimmed(text@),
{
    let n: usize = text.unicode_len();
    let mut start: usize = 0;
    assert(text@.skip(0) =~= text@);
    while start < n && is_space(text.get_char(start))
        invariant
            start <= n,
            n == text@.len(),
            trimmed_start(text@) == trimmed_start(text@.skip(start as int)),
        decreases n - start,
    {
        assert(text@.skip(start as int).drop_first() =~= text@.skip(start + 1));
        start += 1;
    }
    let mut end: usize = n;
    assert(text@.subrange(start as int, end as int) =~= text@.skip(start as int));
    while end > start && is_space(text.get_char(end - 1))
        invariant
            start <= end <= n,
            n == text@.len(),
            trimmed(text@) == trimmed_end(text@.subrange(start as int, end as int)),
        decreases end,
    {
        assert(text@.subrange(start as int, end as int).drop_last() =~= text@.subrange(
            start as int,
            end - 1,
        ));
        end -= 1;
    }
    text.substring_char(start, end)
}

/// Builds the query that asks the evaluator for a package's license. The
/// identifier is taken as it is: nothing is trimmed or checked.
pub fn query_expression(identifier: &str) -> (r: String)
    ensures
        r@ == query_of(identifier@),
{
    let mut query = String::from_str("nixpkgs#");
    query.append(identifier);
    query.append(".meta.license");
    query
}

/// Builds the arguments with which the evaluator is started for a package.
pub fn evaluator_arguments(identifier: &str) -> (r: Vec<String>)
    ensures
        texts(r@) == arguments_of(identifier@),
{
    let mut arguments: Vec<String> = Vec::new();
    arguments.push(String::from_str("eval"));
    arguments.push(String::from_str("--json"));
    arguments.push(query_expression(identifier));
    assert(texts(arguments@) =~= arguments_of(identifier@));
    arguments
}

/// Reads the evaluator's standard output as text: decoded as UTF-8 with
/// invalid sequences replaced, then trimmed.
pub fn decode_output(stdout: &Vec<u8>) -> (r: String)
    ensures
        r@ == answer_of(stdout@),
{
    let decoded = decode_lossy(stdout);
    String::from_str(trim(decoded.as_str()))
}

} // verus!
