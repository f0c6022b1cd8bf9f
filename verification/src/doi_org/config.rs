//! What a doi.org client is configured with.

use crate::text::{
    configured, configured_text, is_blank, lemma_blank_trims_to_nothing, slash, strip_end, trim, trim_trailing_slashes, trimmed,
};
use crate::time::TimeSpan;
use vstd::prelude::*;
use vstd::string::StringExecFns;

verus! {

/// The configuration of a doi.org client.
#[derive(Debug, Clone, PartialEq)]
pub struct DoiOrgConfig {
    /// Base URL of content negotiation.
    pub base_url: String,
    /// The time that one request may take.
    pub timeout: TimeSpan,
    /// Contact address, sent in the `User-Agent` header.
    pub mailto: Option<String>,
    /// The name of the application, sent in the `User-Agent` header.
    pub user_agent: Option<String>,
}

impl Default for DoiOrgConfig {
    /// `https://doi.org`, 30 seconds per request, and nothing to name the
    /// client by.
    fn default() -> (config: DoiOrgConfig)
        ensures
            config.base_url@ == "https://doi.org"@,
            config.timeout == (TimeSpan { secs: 30, nanos: 0 }),
            config.mailto is None,
            config.user_agent is None,
    {
        DoiOrgConfig {
            base_url: String::from_str("https://doi.org"),
            timeout: TimeSpan::from_secs(30),
            mailto: None,
            user_agent: None,
        }
    }
}

impl DoiOrgConfig {
    /// The base URL without the slashes at its end.
    pub fn base_url_value(&self) -> (url: String)
        ensures
            url@ == strip_end(self.base_url@, slash()),
    {
        String::from_str(trim_trailing_slashes(self.base_url.as_str()))
    }

    /// The contact address without the white space around it, where one is
    /// set and not blank.
    pub fn mailto_value(&self) -> (mailto: Option<&str>)
        ensures
            match mailto {
                Some(text) => configured(self.mailto) == Some(text@),
                None => configured(self.mailto) is None,
            },
    {
        configured_text(&self.mailto)
    }

    /// The application's name without the white space around it, where one
    /// is set and not blank.
    pub fn user_agent_value(&self) -> (agent: Option<&str>)
        ensures
            match agent {
                Some(text) => configured(self.user_agent) == Some(text@),
                None => configured(self.user_agent) is None,
            },
    {
        configured_text(&self.user_agent)
    }

    /// The configuration with `email`, trimmed, as its contact address; a
    /// blank `email` changes nothing.
    pub fn polite(self, email: &str) -> (config: DoiOrgConfig)
        ensures
            config.base_url == self.base_url,
            config.timeout == self.timeout,
            config.user_agent == self.user_agent,
            is_blank(email@) ==> config.mailto == self.mailto,
            !is_blank(email@) ==> (config.mailto matches Some(address) && address@ == trimmed(
                email@,
            )),
    {
        let mut config = self;
        let address = trim(email);
        proof {
            lemma_blank_trims_to_nothing(email@);
        }
        if !address.is_empty() {
            config.mailto = Some(String::from_str(address));
        }
        config
    }
}

} // verus!
