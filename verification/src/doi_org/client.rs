//! What a doi.org client sends: the URL of a DOI and the headers of the
//! request.

use crate::agent::{text_of, user_agent, user_agent_of};
use crate::doi_org::config::DoiOrgConfig;
use crate::parse::Doi;
use crate::text::configured;
use vstd::prelude::*;
use vstd::string::StringExecFns;

verus! {

/// The media type of CSL-JSON, asked for in the `Accept` header.
pub const CSL_JSON_ACCEPT: &'static str = "application/vnd.citationstyles.csl+json";

/// The URL under which the DOI is resolved: `<base_url>/<doi>`.
pub fn build_url(base_url: &str, doi: &Doi) -> (url: String)
    ensures
        url@ == base_url@ + "/"@ + doi@,
{
    let mut url = String::from_str(base_url);
    url.append("/");
    url.append(doi.as_str());
    url
}

/// The `User-Agent` header of the client: the application's name, then the
/// contact address behind `mailto:`, as far as either is configured.
pub fn user_agent_header_value(config: &DoiOrgConfig) -> (header: Option<String>)
    ensures
        text_of(header) == user_agent_of(configured(config.user_agent), configured(config.mailto)),
{
    user_agent(config.user_agent_value(), config.mailto_value())
}

} // verus!
