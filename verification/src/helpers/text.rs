//! The text functions of the standard library that the pipeline relies on
//! and that are taken on trust.

use vstd::prelude::*;
use vstd::string::StringExecFns;

verus! {

/// `text` without the white space at its two ends, as `str::trim` leaves it.
pub uninterp spec fn trimmed(text: Seq<char>) -> Seq<char>;

/// `text` in lower case, as `str::to_lowercase` writes it.
pub uninterp spec fn lowercased(text: Seq<char>) -> Seq<char>;

/// `text` as the `{:?}` format writes a string: in double quotes, with
/// escapes.
pub uninterp spec fn quoted(text: Seq<char>) -> Seq<char>;

/// An optional text as the `{:?}` format writes an `Option<String>`: the
/// word `None`, or the quoted text in `Some(` and `)`.
pub open spec fn quoted_optional(text: Option<Seq<char>>) -> Seq<char> {
    match text {
        None => "None"@,
        Some(text) => "Some("@ + quoted(text) + ")"@,
    }
}

/// Calls `str::trim`. Trusted: that the slice it returns depends on the
/// characters of `text` alone.
#[verifier::external_body]
pub(crate) fn trim(text: &str) -> (inner: &str)
    ensures
        inner@ == trimmed(text@),
{
    text.trim()
}

/// Calls `str::to_lowercase`. Trusted: that the string it returns depends on
/// the characters of `text` alone.
#[verifier::external_body]
pub(crate) fn to_lowercase(text: &str) -> (lower: String)
    ensures
        lower@ == lowercased(text@),
{
    text.to_lowercase()
}

/// Formats a string with `{:?}`, the `Debug` form of `str`. Trusted: that
/// the result depends on the characters of `text` alone.
#[verifier::external_body]
pub(crate) fn quote(text: &str) -> (out: String)
    ensures
        out@ == quoted(text@),
{
    format!("{:?}", text)
}

/// Writes an optional string as the `{:?}` format does.
pub fn quote_optional(text: &Option<String>) -> (out: String)
    ensures
        out@ == quoted_optional(text.deep_view()),
{
    match text {
        None => String::from_str("None"),
        Some(text) => {
            let mut out = String::from_str("Some(");
            out.append(quote(text.as_str()).as_str());
            out.append(")");
            out
        },
    }
}

/// Tells whether `text` reads exactly as `word`.
pub fn reads_as(text: &str, word: &str) -> (same: bool)
    ensures
        same == (text@ == word@),
{
    let t = text.to_owned();
    let w = word.to_owned();
    t == w
}

} // verus!
