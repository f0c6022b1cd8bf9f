//! Strict extraction: the suffix of a DOI is a single path segment, and an
//! arXiv identifier stands for its DOI.

use crate::pattern::{capture, captured_text, ARXIV_PATTERN, STRICT_DOI_PATTERN};
use crate::percent::{percent_decode, percent_decoded};
use crate::text::{
    byte_len, is_blank, is_part_of, leading_run, lemma_blank_trims_to_nothing,
    lemma_leading_run_cut, lemma_start_of_part, lemma_stripped_is_a_start, same_text,
    strip_trailing_file_suffix, strip_trailing_punctuation, trim, without_file_suffix,
    without_trailing_punctuation,
};
use vstd::prelude::*;
use vstd::string::StrSliceExecFns;
use vstd::string::StringExecFns;
use vstd::string::StringSliceAdditionalSpecFns;

verus! {

/// A DOI as it was found in some text.
#[derive(Debug, Clone, PartialEq)]
pub struct Doi {
    /// The DOI as extracted from the input.
    pub value: String,
}

impl View for Doi {
    type V = Seq<char>;

    open spec fn view(&self) -> Seq<char> {
        self.value@
    }
}

/// The views of an optional DOI.
pub open spec fn text_of(doi: Option<Doi>) -> Option<Seq<char>> {
    match doi {
        Some(d) => Some(d@),
        None => None,
    }
}

/// A match with its trailing punctuation and then one file suffix removed.
pub open spec fn cleaned(matched: Seq<char>) -> Seq<char> {
    without_file_suffix(without_trailing_punctuation(matched))
}

/// The DOI that a match of the DOI pattern stands for: the cleaned match,
/// unless that is no longer than the bare prefix `10.0/`.
pub open spec fn identifier_of(matched: Seq<char>) -> Option<Seq<char>> {
    if byte_len(cleaned(matched)) > 5 {
        Some(cleaned(matched))
    } else {
        None
    }
}

/// The DOI that the first match of the DOI pattern in `text` stands for.
pub open spec fn doi_found_in(text: Seq<char>) -> Option<Seq<char>> {
    match captured_text(STRICT_DOI_PATTERN@, text, 0) {
        Some(matched) => identifier_of(matched),
        None => None,
    }
}

/// `10.48550/arXiv.`, the prefix of every arXiv DOI.
pub open spec fn arxiv_doi_prefix() -> Seq<char> {
    "10.48550/arXiv."@
}

/// The DOI of the arXiv identifier `id`.
pub open spec fn arxiv_doi(id: Seq<char>) -> Seq<char> {
    arxiv_doi_prefix() + id
}

/// The DOI of the first arXiv identifier in `text`.
pub open spec fn arxiv_found_in(text: Seq<char>) -> Option<Seq<char>> {
    match captured_text(ARXIV_PATTERN@, text, 1) {
        Some(id) => Some(arxiv_doi(id)),
        None => None,
    }
}

/// What one text yields: its first DOI, else the DOI of its first arXiv
/// identifier.
pub open spec fn found_in(text: Seq<char>) -> Option<Seq<char>> {
    if doi_found_in(text) is Some {
        doi_found_in(text)
    } else {
        arxiv_found_in(text)
    }
}

/// What extraction yields for `input`: what the input itself yields, else
/// what its percent-decoded form yields where decoding changed it.
pub open spec fn extracted(input: Seq<char>) -> Option<Seq<char>> {
    if input.len() == 0 {
        None
    } else if found_in(input) is Some {
        found_in(input)
    } else if percent_decoded(input) == input {
        None
    } else {
        found_in(percent_decoded(input))
    }
}

/// `10.`, the marker that opens every DOI.
pub open spec fn ten_dot() -> Seq<char> {
    seq!['1', '0', '.']
}

/// "Is no `/`", as a predicate value.
pub open spec fn not_slash() -> spec_fn(char) -> bool {
    |c: char| c != '/'
}

/// An ASCII decimal digit.
pub open spec fn is_ascii_digit(c: char) -> bool {
    '0' <= c && c <= '9'
}

/// The prefix of the DOI `s`: what stands before its first `/`, where that
/// begins with `10.` and goes on.
pub open spec fn prefix_of(s: Seq<char>) -> Option<Seq<char>> {
    let cut = leading_run(s, not_slash());
    if cut < s.len() && cut > 3 && s.take(3) == ten_dot() {
        Some(s.take(cut as int))
    } else {
        None
    }
}

/// The registrant number of the DOI `s`: what follows `10.` in its prefix,
/// where that is made of ASCII digits only.
pub open spec fn registrant_number_of(s: Seq<char>) -> Option<Seq<char>> {
    match prefix_of(s) {
        Some(prefix) => if forall|i: int| 3 <= i < prefix.len() ==> is_ascii_digit(
            #[trigger] prefix[i],
        ) {
            Some(prefix.skip(3))
        } else {
            None
        },
        None => None,
    }
}

/// The character of `10.` at `i`, for `i` below 3.
fn ten_dot_at(i: usize) -> (c: char)
    requires
        i < 3,
    ensures
        c == ten_dot()[i as int],
{
    if i == 0 {
        '1'
    } else if i == 1 {
        '0'
    } else {
        '.'
    }
}

/// Why a text could not be parsed as a DOI.
#[derive(Debug)]
pub enum DoiParseError {
    /// The text holds no DOI; `stage` names the step that found so.
    InvalidDoi { stage: &'static str, input: String },
}

impl DoiParseError {
    /// The error in words: `Invalid DOI in input at <stage>: <input>`.
    pub fn message(&self) -> (text: String)
        ensures
            text@ == "Invalid DOI in input at "@ + self->stage@ + ": "@ + self->input@,
    {
        match self {
            DoiParseError::InvalidDoi { stage, input } => {
                let mut text = String::from_str("Invalid DOI in input at ");
                text.append(stage);
                text.append(": ");
                text.append(input.as_str());
                text
            },
        }
    }
}

impl Doi {
    /// A DOI holding a copy of `extracted`.
    pub fn new(extracted: &str) -> (doi: Doi)
        ensures
            doi@ == extracted@,
    {
        Doi { value: extracted.to_owned() }
    }

    /// The DOI as a string slice.
    pub fn as_str(&self) -> (s: &str)
        ensures
            s@ == self@,
    {
        self.value.as_str()
    }

    /// The prefix of the DOI, such as `10.1000`: what stands before the
    /// first `/`, provided that it begins with `10.` and goes on.
    pub fn prefix(&self) -> (prefix: Option<&str>)
        ensures
            match prefix {
                Some(p) => prefix_of(self@) == Some(p@),
                None => prefix_of(self@) is None,
            },
    {
        let s = self.value.as_str();
        let total: usize = s.unicode_len();
        let mut cut: usize = 0;
        let mut marked = true;
        let mut seen: usize = 0;
        for c in it: s.chars()
            invariant
                seen == it.index(),
                it.seq() == s@,
                total == s@.len(),
                cut <= seen,
                forall|i: int| 0 <= i < cut ==> #[trigger] s@[i] != '/',
                cut < seen ==> s@[cut as int] == '/',
                marked == (forall|i: int| 0 <= i < cut && i < 3 ==> #[trigger] s@[i] == ten_dot()[i]),
        {
            if cut == seen && c != '/' {
                if seen < 3 && c != ten_dot_at(seen) {
                    marked = false;
                }
                cut = seen + 1;
            }
            seen = seen + 1;
        }
        proof {
            lemma_leading_run_cut(s@, not_slash(), cut as int);
            if cut > 3 {
                assert((s@.take(3) == ten_dot()) == marked) by {
                    if marked {
                        assert(s@.take(3) =~= ten_dot());
                    } else {
                        let i = choose|i: int| 0 <= i < cut && i < 3 && #[trigger] s@[i] != ten_dot()[i];
                        assert(s@.take(3)[i] == s@[i]);
                    }
                }
            }
        }
        if cut < total && cut > 3 && marked {
            Some(s.substring_char(0, cut))
        } else {
            None
        }
    }

    /// The registrant number of the DOI, such as `1000`: what follows `10.`
    /// in the prefix, provided that it is made of ASCII digits.
    pub fn registrant_number(&self) -> (number: Option<&str>)
        ensures
            match number {
                Some(n) => registrant_number_of(self@) == Some(n@),
                None => registrant_number_of(self@) is None,
            },
    {
        match self.prefix() {
            Some(prefix) => {
                let total: usize = prefix.unicode_len();
                let mut digits = true;
                let mut seen: usize = 0;
                for c in it: prefix.chars()
                    invariant
                        seen == it.index(),
                        it.seq() == prefix@,
                        total == prefix@.len(),
                        digits == (forall|i: int| 3 <= i < seen ==> is_ascii_digit(#[trigger] prefix@[i])),
                {
                    if seen >= 3 && !('0' <= c && c <= '9') {
                        digits = false;
                    }
                    seen = seen + 1;
                }
                if digits {
                    Some(prefix.substring_char(3, total))
                } else {
                    None
                }
            },
            None => None,
        }
    }

    /// Parses a DOI out of `input`.
    ///
    /// Blank input is refused at the stage `parse-input`, input in which
    /// [`extract_doi_from_url`] finds nothing at the stage `extract-doi`;
    /// either error carries the input.
    pub fn parse(input: &str) -> (parsed: Result<Doi, DoiParseError>)
        ensures
            match parsed {
                Ok(doi) => !is_blank(input@) && extracted(input@) == Some(doi@),
                Err(DoiParseError::InvalidDoi { stage, input: refused }) => {
                    &&& refused@ == input@
                    &&& is_blank(input@) ==> stage@ == "parse-input"@
                    &&& !is_blank(input@) ==> stage@ == "extract-doi"@ && extracted(input@) is None
                },
            },
    {
        proof {
            lemma_blank_trims_to_nothing(input@);
        }
        if trim(input).is_empty() {
            return Err(DoiParseError::InvalidDoi { stage: "parse-input", input: input.to_owned() });
        }
        match extract_doi_from_url(input) {
            Some(doi) => Ok(doi),
            None => Err(DoiParseError::InvalidDoi { stage: "extract-doi", input: input.to_owned() }),
        }
    }
}

impl std::str::FromStr for Doi {
    type Err = DoiParseError;

    /// Parses as [`Doi::parse`] does: blank input is refused at the stage
    /// `parse-input`, input without a DOI at the stage `extract-doi`, and
    /// any other input gives the DOI that extraction finds in it.
    fn from_str(input: &str) -> (parsed: Result<Doi, DoiParseError>)
        ensures
            match parsed {
                Ok(doi) => !is_blank(input@) && extracted(input@) == Some(doi@),
                Err(DoiParseError::InvalidDoi { stage, input: refused }) => {
                    &&& refused@ == input@
                    &&& is_blank(input@) ==> stage@ == "parse-input"@
                    &&& !is_blank(input@) ==> stage@ == "extract-doi"@ && extracted(input@) is None
                },
            },
    {
        Doi::parse(input)
    }
}

/// Turns a match of the DOI pattern into a DOI: trailing punctuation goes,
/// then one `.pdf` or `/pdf`, and what is left must be longer than `10.0/`.
pub fn doi_from_match(matched: &str) -> (doi: Option<Doi>)
    ensures
        text_of(doi) == identifier_of(matched@),
        doi matches Some(d) ==> d@.is_prefix_of(matched@),
{
    proof {
        lemma_stripped_is_a_start(matched@);
    }
    let kept = strip_trailing_file_suffix(strip_trailing_punctuation(matched));
    if kept.as_bytes().len() > 5 {
        Some(Doi::new(kept))
    } else {
        None
    }
}

/// The DOI of the arXiv identifier `id`.
pub fn doi_from_arxiv_id(id: &str) -> (doi: Doi)
    ensures
        doi@ == arxiv_doi(id@),
{
    let mut value = String::from_str("10.48550/arXiv.");
    value.append(id);
    Doi { value }
}

/// Finds the first DOI in `input`: a piece of the input, as it stands
/// there.
pub fn find_doi(input: &str) -> (doi: Option<Doi>)
    ensures
        text_of(doi) == doi_found_in(input@),
        doi matches Some(d) ==> is_part_of(d@, input@),
{
    match capture(STRICT_DOI_PATTERN, input, 0) {
        Some(matched) => {
            let doi = doi_from_match(matched);
            proof {
                if doi is Some {
                    lemma_start_of_part(doi->0@, matched@, input@);
                }
            }
            doi
        },
        None => None,
    }
}

/// A DOI or the DOI of an arXiv identifier stands in `text`: `doi` is a
/// piece of it, or the arXiv prefix before a piece of it.
pub open spec fn stands_in(doi: Seq<char>, text: Seq<char>) -> bool {
    is_part_of(doi, text) || exists|id: Seq<char>| #[trigger]
        is_part_of(id, text) && doi == arxiv_doi(id)
}

/// Finds the first arXiv identifier in `input`, a piece of the input, and
/// derives its DOI.
pub fn find_arxiv_doi(input: &str) -> (doi: Option<Doi>)
    ensures
        text_of(doi) == arxiv_found_in(input@),
        doi matches Some(d) ==> stands_in(d@, input@),
{
    match capture(ARXIV_PATTERN, input, 1) {
        Some(id) => Some(doi_from_arxiv_id(id)),
        None => None,
    }
}

/// Finds a DOI, else an arXiv identifier, in `text`.
pub fn find_in(text: &str) -> (doi: Option<Doi>)
    ensures
        text_of(doi) == found_in(text@),
        doi matches Some(d) ==> stands_in(d@, text@),
{
    match find_doi(text) {
        Some(doi) => Some(doi),
        None => find_arxiv_doi(text),
    }
}

/// Extracts a DOI from a URL or from running text.
///
/// The input is searched for a DOI, then for an arXiv identifier; where it
/// holds neither, its percent-decoded form is searched in the same way,
/// provided that decoding changed it. Empty input yields nothing. What is
/// found stands in the text it was found in.
pub fn extract_doi_from_url(input: &str) -> (doi: Option<Doi>)
    ensures
        text_of(doi) == extracted(input@),
        doi matches Some(d) ==> stands_in(d@, input@) || stands_in(d@, percent_decoded(input@)),
{
    if input.is_empty() {
        return None;
    }
    match find_in(input) {
        Some(doi) => Some(doi),
        None => {
            let decoded = percent_decode(input);
            if same_text(decoded.as_str(), input) {
                None
            } else {
                find_in(decoded.as_str())
            }
        },
    }
}

} // verus!
