//! The parts of a Crossref work record that hold text, numbers and dates.

use std::collections::BTreeMap;
use vstd::prelude::*;

verus! {

/// A date as the registry gives it: lists of year, month and day, each of which may be missing.
#[derive(Debug, Clone, PartialEq, Default)]
pub struct DateParts {
    pub date_parts: Vec<Vec<Option<i64>>>,
}

/// A date with the instant it was derived from.
#[derive(Debug, Clone, PartialEq, Default)]
pub struct Date {
    pub date_parts: Vec<Vec<i64>>,
    pub date_time: Option<String>,
    pub timestamp: Option<i64>,
}

/// A date with the version of the record it belongs to.
#[derive(Debug, Clone, PartialEq, Default)]
pub struct DateAndVersion {
    pub date_parts: Vec<Vec<i64>>,
    pub version: Option<String>,
    pub date_time: Option<String>,
    pub timestamp: Option<i64>,
}

/// A statement that the publisher makes about a work.
#[derive(Debug, Clone, PartialEq, Default)]
pub struct WorkAssertion {
    pub group: Option<WorkAssertionGroup>,
    pub explanation: Option<WorkAssertionExplanation>,
    pub name: Option<String>,
    pub value: Option<String>,
    pub url: Option<String>,
    pub order: Option<i64>,
    pub label: Option<String>,
}

/// The group under which an assertion is shown.
#[derive(Debug, Clone, PartialEq, Default)]
pub struct WorkAssertionGroup {
    pub name: Option<String>,
    pub label: Option<String>,
}

/// Where an assertion is explained.
#[derive(Debug, Clone, PartialEq, Default)]
pub struct WorkAssertionExplanation {
    pub url: Option<String>,
}

/// A contributor to a work.
#[derive(Debug, Clone, PartialEq, Default)]
pub struct Author {
    pub orcid: Option<String>,
    pub suffix: Option<String>,
    pub given: Option<String>,
    pub family: Option<String>,
    pub affiliation: Vec<Affiliation>,
    pub name: Option<String>,
    pub authenticated_orcid: Option<bool>,
    pub prefix: Option<String>,
    pub sequence: Option<String>,
}

/// The institution that a contributor belongs to.
#[derive(Debug, Clone, PartialEq, Default)]
pub struct Affiliation {
    pub name: Option<String>,
    pub place: Vec<String>,
    pub department: Vec<String>,
    pub acronym: Vec<String>,
    pub id: Vec<AffiliationIdentifier>,
}

/// An identifier of an institution.
#[derive(Debug, Clone, PartialEq, Default)]
pub struct AffiliationIdentifier {
    pub id: Option<String>,
    pub id_type: Option<String>,
    pub asserted_by: Option<String>,
}

/// A clinical trial that a work reports on.
#[derive(Debug, Clone, PartialEq, Default)]
pub struct WorkClinicalTrial {
    pub clinical_trial_number: Option<String>,
    pub registry: Option<String>,
    pub kind: Option<String>,
}

/// The domains on which the content of a work is served.
#[derive(Debug, Clone, PartialEq, Default)]
pub struct WorkDomain {
    pub domain: Vec<String>,
    pub crossmark_restriction: Option<bool>,
}

/// The event, such as a conference, at which a work was presented.
#[derive(Debug, Clone, PartialEq, Default)]
pub struct WorkEvent {
    pub name: Option<String>,
    pub location: Option<String>,
    pub start: Option<DateParts>,
    pub end: Option<DateParts>,
}

/// The span of time in which a work is free to read.
#[derive(Debug, Clone, PartialEq, Default)]
pub struct WorkFreeToRead {
    pub start_date: Option<DateParts>,
    pub end_date: Option<DateParts>,
}

/// A funder of a work and its awards.
#[derive(Debug, Clone, PartialEq, Default)]
pub struct WorkFunder {
    pub name: Option<String>,
    pub doi: Option<String>,
    pub doi_asserted_by: Option<String>,
    pub award: Vec<String>,
    pub award_info: Vec<WorkFunderAwardInfo>,
    pub id: Vec<FunderIdentifier>,
}

/// An award of a funder.
#[derive(Debug, Clone, PartialEq, Default)]
pub struct WorkFunderAwardInfo {
    pub award_number: Vec<String>,
}

/// An identifier of a funder.
#[derive(Debug, Clone, PartialEq, Default)]
pub struct FunderIdentifier {
    pub id: Option<String>,
    pub id_type: Option<String>,
    pub asserted_by: Option<String>,
}

/// An institution connected to a work.
#[derive(Debug, Clone, PartialEq, Default)]
pub struct WorkInstitution {
    pub name: Option<String>,
    pub place: Vec<String>,
    pub department: Vec<String>,
    pub acronym: Vec<String>,
    pub id: Vec<AffiliationIdentifier>,
}

/// An ISSN or ISBN with the kind of medium it names.
#[derive(Debug, Clone, PartialEq, Default)]
pub struct WorkISSNType {
    pub kind: Option<String>,
    pub value: Option<String>,
}

/// The journal issue in which a work appeared.
#[derive(Debug, Clone, PartialEq, Default)]
pub struct WorkJournalIssue {
    pub issue: Option<String>,
    pub published_online: Option<DateParts>,
    pub published_print: Option<DateParts>,
}

/// A licence under which a work is available.
#[derive(Debug, Clone, PartialEq, Default)]
pub struct WorkLicense {
    pub url: Option<String>,
    pub start: Option<Date>,
    pub delay_in_days: Option<i64>,
    pub content_version: Option<String>,
}

/// A link to the full text of a work.
#[derive(Debug, Clone, PartialEq, Default)]
pub struct WorkLink {
    pub url: Option<String>,
    pub content_type: Option<String>,
    pub content_version: Option<String>,
    pub intended_application: Option<String>,
}

/// An investigator of a funded project.
#[derive(Debug, Clone, PartialEq, Default)]
pub struct Investigator {
    pub orcid: Option<String>,
    pub suffix: Option<String>,
    pub given: Option<String>,
    pub family: Option<String>,
    pub affiliation: Vec<InvestigatorAffiliation>,
    pub name: Option<String>,
    pub role_start: Option<DateParts>,
    pub authenticated_orcid: Option<bool>,
    pub prefix: Option<String>,
    pub alternate_name: Option<String>,
    pub sequence: Option<String>,
    pub role_end: Option<DateParts>,
}

/// The institution of an investigator.
#[derive(Debug, Clone, PartialEq, Default)]
pub struct InvestigatorAffiliation {
    pub id: Vec<AffiliationIdentifier>,
    pub name: Option<String>,
}

/// The title of a funded project.
#[derive(Debug, Clone, PartialEq, Default)]
pub struct ProjectTitle {
    pub title: Option<String>,
    pub language: Option<String>,
}

/// The description of a funded project.
#[derive(Debug, Clone, PartialEq, Default)]
pub struct WorksProjectDescription {
    pub description: Option<String>,
    pub language: Option<String>,
}

/// The works that a work is related to, by kind of relation.
#[derive(Debug, Clone, PartialEq, Default)]
pub struct WorkRelation {
    pub relations: BTreeMap<String, Vec<WorkRelationObject>>,
}

/// One related work.
#[derive(Debug, Clone, PartialEq, Default)]
pub struct WorkRelationObject {
    pub id_type: Option<String>,
    pub id: Option<String>,
    pub asserted_by: Option<String>,
}

/// Where a work can be found.
#[derive(Debug, Clone, PartialEq, Default)]
pub struct Resources {
    pub primary: Option<PrimaryResource>,
    pub secondary: Vec<SecondaryResource>,
}

/// The landing page of a work.
#[derive(Debug, Clone, PartialEq, Default)]
pub struct PrimaryResource {
    pub url: Option<String>,
}

/// A further place where a work can be found.
#[derive(Debug, Clone, PartialEq, Default)]
pub struct SecondaryResource {
    pub url: Option<String>,
    pub label: Option<String>,
}

/// What is known of a peer review.
#[derive(Debug, Clone, PartialEq, Default)]
pub struct WorkReview {
    pub kind: Option<String>,
    pub running_number: Option<String>,
    pub revision_round: Option<String>,
    pub stage: Option<String>,
    pub competing_interest_statement: Option<String>,
    pub recommendation: Option<String>,
    pub language: Option<String>,
}

/// The body that issued a standard.
#[derive(Debug, Clone, PartialEq, Default)]
pub struct WorkStandardsBody {
    pub name: Option<String>,
    pub acronym: Option<String>,
}

/// The status of posted content.
#[derive(Debug, Clone, PartialEq, Default)]
pub struct PostedContentStatus {
    pub kind: Option<String>,
    pub update: Option<DateParts>,
    pub status_description: Vec<StatusDescription>,
}

/// A status in words.
#[derive(Debug, Clone, PartialEq, Default)]
pub struct StatusDescription {
    pub language: Option<String>,
    pub description: Option<String>,
}

/// An update, such as a correction, that a work makes to another.
#[derive(Debug, Clone, PartialEq, Default)]
pub struct WorkUpdate {
    pub label: Option<String>,
    pub doi: Option<String>,
    pub kind: Option<String>,
    pub source: Option<String>,
    pub updated: Option<Date>,
    pub record_id: Option<String>,
}

/// The version of a work.
#[derive(Debug, Clone, PartialEq, Default)]
pub struct VersionInfo {
    pub version: Option<String>,
    pub language: Option<String>,
    pub version_description: Vec<VersionInfoDescription>,
}

/// A version in words.
#[derive(Debug, Clone, PartialEq, Default)]
pub struct VersionInfoDescription {
    pub description: Option<String>,
    pub language: Option<String>,
}

} // verus!
