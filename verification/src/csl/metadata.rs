//! The parts of a doi.org record that hold text and dates.

use crate::csl::value::ClsDatePart;
use vstd::prelude::*;

verus! {

/// An author of a work.
#[derive(Debug)]
pub struct Author {
    pub given: String,
    pub family: String,
    pub orcid: Option<String>,
    pub sequence: Option<String>,
    pub affiliation: Vec<String>,
}

/// The journal issue in which a work appeared.
#[derive(Debug)]
pub struct JournalIssue {
    pub issue: String,
    pub published_print: PublishedPrint,
}

/// The date at which a work appeared in print.
#[derive(Debug)]
pub struct PublishedPrint {
    pub date_parts: ClsDatePart,
}

/// The domains on which the content of a work is served.
#[derive(Debug)]
pub struct ContentDomain {
    pub domain: Vec<String>,
}

} // verus!
