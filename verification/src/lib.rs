//! Extraction and canonicalisation of DOIs found in free text and URLs,
//! together with the request policies of the registry clients.
//!
//! The crate root holds the permissive extractor, whose DOI suffix runs on
//! through further `/`, and the DOI in its original and canonical form. The
//! strict extractor, whose suffix is a single path segment, is in [`parse`].

pub mod agent;
pub mod crossref;
pub mod csl;
pub mod doi_org;
pub mod parse;
pub mod pattern;
pub mod percent;
pub mod text;
pub mod time;

use crate::pattern::{capture, captured_text, LOOSE_DOI_PATTERN};
use crate::percent::{percent_decode, percent_decoded};
use crate::text::{
    ascii_lower, byte_len, is_part_of, lemma_start_of_part, lemma_stripped_is_a_start, push_char,
    same_text, strip_trailing_punctuation, to_ascii_lower, without_trailing_punctuation,
};
use vstd::prelude::*;
use vstd::string::StrSliceExecFns;
use vstd::string::StringExecFns;

verus! {

/// Why no DOI came out of an input.
#[derive(Debug, Clone, PartialEq)]
pub enum DoiError {
    /// The input holds no DOI.
    NotFound,
    /// The input cannot hold one; the text says why.
    InvalidInput(String),
}

impl DoiError {
    /// The error in words.
    pub fn message(&self) -> (text: String)
        ensures
            text@ == match *self {
                DoiError::NotFound => "no DOI found in input"@,
                DoiError::InvalidInput(reason) => "invalid input: "@ + reason@,
            },
    {
        match self {
            DoiError::NotFound => String::from_str("no DOI found in input"),
            DoiError::InvalidInput(reason) => {
                let mut text = String::from_str("invalid input: ");
                text.append(reason.as_str());
                text
            },
        }
    }
}

/// The canonical form of a DOI: its first three characters, the marker
/// `10.`, in ASCII lower case, and the rest as it stands.
pub open spec fn canonical_form(s: Seq<char>) -> Seq<char> {
    Seq::new(
        s.len(),
        |i: int|
            if i < 3 {
                ascii_lower(s[i])
            } else {
                s[i]
            },
    )
}

/// Canonicalising twice is canonicalising once.
pub proof fn lemma_canonical_form_idempotent(s: Seq<char>)
    ensures
        canonical_form(canonical_form(s)) == canonical_form(s),
{
    assert(canonical_form(canonical_form(s)) =~= canonical_form(s));
}

/// The canonical form is as long as the original, differs from it in no
/// character behind the third, and in the first three only by the case of an
/// ASCII letter.
pub proof fn lemma_canonical_form_keeps_suffix(s: Seq<char>)
    ensures
        canonical_form(s).len() == s.len(),
        forall|i: int| 3 <= i < s.len() ==> canonical_form(s)[i] == s[i],
        forall|i: int| 0 <= i < s.len() && i < 3 ==> canonical_form(s)[i] == ascii_lower(s[i]),
        forall|i: int|
            0 <= i < s.len() && !('A' <= s[i] && s[i] <= 'Z') ==> canonical_form(s)[i] == s[i],
{
}

/// Computes [`canonical_form`].
pub fn canonicalize(s: &str) -> (canonical: String)
    ensures
        canonical@ == canonical_form(s@),
{
    let total: usize = s.unicode_len();
    let mut canonical = String::new();
    let mut seen: usize = 0;
    for c in it: s.chars()
        invariant
            seen == it.index(),
            it.seq() == s@,
            total == s@.len(),
            canonical@ == canonical_form(s@).take(seen as int),
    {
        let next = if seen < 3 {
            to_ascii_lower(c)
        } else {
            c
        };
        push_char(&mut canonical, next);
        proof {
            assert(canonical_form(s@).take(seen + 1) =~= canonical_form(s@).take(seen as int).push(
                next,
            ));
        }
        seen = seen + 1;
    }
    proof {
        assert(canonical_form(s@).take(seen as int) =~= canonical_form(s@));
    }
    canonical
}

/// A DOI in the form in which it was found and in its canonical form.
#[derive(Debug, Clone, PartialEq)]
pub struct Doi {
    /// The DOI as extracted, its case preserved.
    pub original: String,
    /// The DOI with its marker `10.` in lower case.
    pub canonical: String,
}

impl Doi {
    /// The two forms belong together: `canonical` is the canonical form of
    /// `original`.
    pub open spec fn wf(&self) -> bool {
        self.canonical@ == canonical_form(self.original@)
    }

    /// The DOI that was found as `extracted`.
    pub fn new(extracted: &str) -> (doi: Doi)
        ensures
            doi.wf(),
            doi.original@ == extracted@,
    {
        Doi { original: extracted.to_owned(), canonical: canonicalize(extracted) }
    }
}

/// The DOI that a match of the DOI pattern stands for: the match without its
/// trailing punctuation, unless that is no longer than the bare prefix
/// `10.0/`.
pub open spec fn identifier_of(matched: Seq<char>) -> Option<Seq<char>> {
    if byte_len(without_trailing_punctuation(matched)) > 5 {
        Some(without_trailing_punctuation(matched))
    } else {
        None
    }
}

/// The DOI that the first match of the DOI pattern in `text` stands for.
pub open spec fn doi_found_in(text: Seq<char>) -> Option<Seq<char>> {
    match captured_text(LOOSE_DOI_PATTERN@, text, 0) {
        Some(matched) => identifier_of(matched),
        None => None,
    }
}

/// What extraction yields for non-empty `input`: the DOI found in it, else
/// the one found in its percent-decoded form where decoding changed it.
pub open spec fn extracted(input: Seq<char>) -> Option<Seq<char>> {
    if doi_found_in(input) is Some {
        doi_found_in(input)
    } else if percent_decoded(input) == input {
        None
    } else {
        doi_found_in(percent_decoded(input))
    }
}

/// The original form of an optional DOI.
pub open spec fn original_of(doi: Option<Doi>) -> Option<Seq<char>> {
    match doi {
        Some(d) => Some(d.original@),
        None => None,
    }
}

/// Turns a match of the DOI pattern into a DOI: trailing punctuation goes,
/// and what is left must be longer than `10.0/`.
pub fn doi_from_match(matched: &str) -> (doi: Option<Doi>)
    ensures
        original_of(doi) == identifier_of(matched@),
        doi matches Some(d) ==> d.wf() && d.original@.is_prefix_of(matched@),
{
    proof {
        lemma_stripped_is_a_start(matched@);
    }
    let kept = strip_trailing_punctuation(matched);
    if kept.as_bytes().len() > 5 {
        Some(Doi::new(kept))
    } else {
        None
    }
}

/// Finds the first DOI in `input`: a piece of the input, as it stands
/// there.
pub fn find_doi(input: &str) -> (doi: Option<Doi>)
    ensures
        original_of(doi) == doi_found_in(input@),
        doi matches Some(d) ==> d.wf() && is_part_of(d.original@, input@),
{
    match capture(LOOSE_DOI_PATTERN, input, 0) {
        Some(matched) => {
            let doi = doi_from_match(matched);
            proof {
                if doi is Some {
                    lemma_start_of_part(doi->0.original@, matched@, input@);
                }
            }
            doi
        },
        None => None,
    }
}

/// Extracts a DOI from a URL or from running text.
///
/// Empty input is invalid. Other input is searched for a DOI; where it
/// holds none, its percent-decoded form is searched, provided that decoding
/// changed it. Input that yields nothing either way is reported as holding
/// no DOI. A DOI that is found is a piece of the text it was found in.
pub fn extract_doi_from_url(input: &str) -> (found: Result<Doi, DoiError>)
    ensures
        match found {
            Ok(doi) => {
                &&& input@.len() > 0
                &&& extracted(input@) == Some(doi.original@)
                &&& doi.wf()
                &&& is_part_of(doi.original@, input@) || is_part_of(
                    doi.original@,
                    percent_decoded(input@),
                )
            },
            Err(DoiError::InvalidInput(reason)) => input@.len() == 0 && reason@
                == "empty string"@,
            Err(DoiError::NotFound) => input@.len() > 0 && extracted(input@) is None,
        },
{
    if input.is_empty() {
        return Err(DoiError::InvalidInput(String::from_str("empty string")));
    }
    match find_doi(input) {
        Some(doi) => Ok(doi),
        None => {
            let decoded = percent_decode(input);
            if same_text(decoded.as_str(), input) {
                Err(DoiError::NotFound)
            } else {
                match find_doi(decoded.as_str()) {
                    Some(doi) => Ok(doi),
                    None => Err(DoiError::NotFound),
                }
            }
        },
    }
}

} // verus!
