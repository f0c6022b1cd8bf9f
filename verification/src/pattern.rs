//! Pattern search, as the `regex` crate performs it.

use crate::text::is_part_of;
use regex::Regex;
use vstd::prelude::*;

verus! {

/// `10.`, a run of digits, `/`, then one path segment: a run of characters
/// other than white space, `?`, `#`, `&`, `=` and `/`.
pub const STRICT_DOI_PATTERN: &'static str = r"10\.\d+/[^\s?#&=/]+";

/// As [`STRICT_DOI_PATTERN`], but the suffix runs on through further `/`.
pub const LOOSE_DOI_PATTERN: &'static str = r"10\.\d+/[^\s?#&=]+";

/// An arXiv identifier behind `arxiv:` or an `arxiv.org` abstract or PDF
/// path, in any case; its first group is the identifier without version.
pub const ARXIV_PATTERN: &'static str =
    r"(?i)(?:arxiv:|arxiv\.org/(?:abs|pdf)/)(\d{4}\.\d{4,5})(?:v\d+)?";

/// The text that group `group` of the leftmost match of the regular
/// expression `pattern` covers in `text`; `None` where `pattern` is no valid
/// expression, where it matches nowhere in `text`, or where the match has no
/// such group. Group 0 is the whole match.
pub uninterp spec fn captured_text(pattern: Seq<char>, text: Seq<char>, group: nat) -> Option<
    Seq<char>,
>;

/// `Regex::new`, `Regex::captures` and `Captures::get` of the `regex` crate,
/// in that order: the part of `text` that group `group` of the first match
/// of `pattern` covers. The contract gives that result its name,
/// [`captured_text`], as it is the same for the same pattern, text and group;
/// and it says what `Match::as_str` documents, that the result is a
/// substring of `text`.
#[verifier::external_body]
pub(crate) fn capture<'a>(pattern: &str, text: &'a str, group: usize) -> (found: Option<&'a str>)
    ensures
        match found {
            Some(part) => captured_text(pattern@, text@, group as nat) == Some(part@)
                && is_part_of(part@, text@),
            None => captured_text(pattern@, text@, group as nat) is None,
        },
{
    match Regex::new(pattern) {
        Ok(expression) => match expression.captures(text) {
            Some(groups) => match groups.get(group) {
                Some(part) => Some(part.as_str()),
                None => None,
            },
            None => None,
        },
        Err(_) => None,
    }
}

} // verus!
