//! What a Crossref client is configured with.

use crate::text::{
    configured, configured_text, is_blank, lemma_blank_trims_to_nothing, slash, strip_end, trim, trim_trailing_slashes, trimmed,
};
use crate::time::TimeSpan;
use vstd::prelude::*;
use vstd::string::StringExecFns;

verus! {

/// Requests per second without a contact address.
pub const DEFAULT_PUBLIC_RATE: u32 = 5;

/// Simultaneous requests without a contact address.
pub const DEFAULT_PUBLIC_CONCURRENCY: usize = 1;

/// Requests per second in the polite pool.
pub const DEFAULT_POLITE_RATE: u32 = 10;

/// Simultaneous requests in the polite pool.
pub const DEFAULT_POLITE_CONCURRENCY: usize = 3;

/// The configuration of a Crossref client.
#[derive(Debug, Clone, PartialEq)]
pub struct CrossrefConfig {
    /// Base URL of the Crossref REST API.
    pub base_url: String,
    /// The time that one request may take.
    pub timeout: TimeSpan,
    /// Contact address; it opens the polite pool.
    pub mailto: Option<String>,
    /// The name of the application.
    pub user_agent: Option<String>,
    /// Requests per second, where the default is not wanted.
    pub rate_limit_per_sec: Option<u32>,
    /// Simultaneous requests, where the default is not wanted.
    pub concurrency: Option<usize>,
    /// The number of retries after which a request fails for good.
    pub retry_max: u32,
    /// The shortest wait between two attempts.
    pub retry_min_backoff: TimeSpan,
    /// The longest wait between two attempts.
    pub retry_max_backoff: TimeSpan,
    /// Whether waits are shortened by a random share.
    pub retry_jitter: bool,
}

impl Default for CrossrefConfig {
    /// The public API at `https://api.crossref.org/v1`, 30 seconds per
    /// request, no contact, and up to 5 retries that wait from 1 to 60
    /// seconds, with jitter.
    fn default() -> (config: CrossrefConfig)
        ensures
            config.base_url@ == "https://api.crossref.org/v1"@,
            config.timeout == (TimeSpan { secs: 30, nanos: 0 }),
            config.mailto is None,
            config.user_agent is None,
            config.rate_limit_per_sec is None,
            config.concurrency is None,
            config.retry_max == 5,
            config.retry_min_backoff == (TimeSpan { secs: 1, nanos: 0 }),
            config.retry_max_backoff == (TimeSpan { secs: 60, nanos: 0 }),
            config.retry_jitter,
    {
        CrossrefConfig {
            base_url: String::from_str("https://api.crossref.org/v1"),
            timeout: TimeSpan::from_secs(30),
            mailto: None,
            user_agent: None,
            rate_limit_per_sec: None,
            concurrency: None,
            retry_max: 5,
            retry_min_backoff: TimeSpan::from_secs(1),
            retry_max_backoff: TimeSpan::from_secs(60),
            retry_jitter: true,
        }
    }
}

impl CrossrefConfig {
    /// Whether a contact address is configured.
    pub open spec fn is_polite(&self) -> bool {
        configured(self.mailto) is Some
    }

    /// The rate limit in force: the one set, else that of the pool.
    pub open spec fn rate_limit(&self) -> u32 {
        match self.rate_limit_per_sec {
            Some(rate) => rate,
            None => if self.is_polite() {
                DEFAULT_POLITE_RATE
            } else {
                DEFAULT_PUBLIC_RATE
            },
        }
    }

    /// The concurrency in force: the one set, else that of the pool.
    pub open spec fn concurrency_limit(&self) -> usize {
        match self.concurrency {
            Some(permits) => permits,
            None => if self.is_polite() {
                DEFAULT_POLITE_CONCURRENCY
            } else {
                DEFAULT_PUBLIC_CONCURRENCY
            },
        }
    }

    /// The base URL without the slashes at its end.
    pub fn base_url_value(&self) -> (url: String)
        ensures
            url@ == strip_end(self.base_url@, slash()),
    {
        String::from_str(trim_trailing_slashes(self.base_url.as_str()))
    }

    /// The contact address without the white space around it, where one is
    /// set and not blank.
    pub fn mailto_value(&self) -> (mailto: Option<&str>)
        ensures
            match mailto {
                Some(text) => configured(self.mailto) == Some(text@),
                None => configured(self.mailto) is None,
            },
    {
        configured_text(&self.mailto)
    }

    /// The application's name without the white space around it, where one
    /// is set and not blank.
    pub fn user_agent_value(&self) -> (agent: Option<&str>)
        ensures
            match agent {
                Some(text) => configured(self.user_agent) == Some(text@),
                None => configured(self.user_agent) is None,
            },
    {
        configured_text(&self.user_agent)
    }

    /// The configuration with `email`, trimmed, as its contact address; a
    /// blank `email` changes nothing.
    pub fn polite(self, email: &str) -> (config: CrossrefConfig)
        ensures
            config.base_url == self.base_url,
            config.timeout == self.timeout,
            config.user_agent == self.user_agent,
            config.rate_limit_per_sec == self.rate_limit_per_sec,
            config.concurrency == self.concurrency,
            config.retry_max == self.retry_max,
            config.retry_min_backoff == self.retry_min_backoff,
            config.retry_max_backoff == self.retry_max_backoff,
            config.retry_jitter == self.retry_jitter,
            is_blank(email@) ==> config.mailto == self.mailto,
            !is_blank(email@) ==> (config.mailto matches Some(address) && address@ == trimmed(
                email@,
            )),
    {
        let mut config = self;
        let address = trim(email);
        proof {
            lemma_blank_trims_to_nothing(email@);
        }
        if !address.is_empty() {
            config.mailto = Some(String::from_str(address));
        }
        config
    }

    /// The rate limit in force, in requests per second: 10 in the polite
    /// pool and 5 outside it, unless one is set.
    pub fn rate_limit_per_sec_value(&self) -> (rate: u32)
        ensures
            rate == self.rate_limit(),
    {
        match self.rate_limit_per_sec {
            Some(rate) => rate,
            None => {
                if self.mailto_value().is_some() {
                    DEFAULT_POLITE_RATE
                } else {
                    DEFAULT_PUBLIC_RATE
                }
            },
        }
    }

    /// The number of simultaneous requests in force: 3 in the polite pool
    /// and 1 outside it, unless one is set.
    pub fn concurrency_value(&self) -> (permits: usize)
        ensures
            permits == self.concurrency_limit(),
    {
        match self.concurrency {
            Some(permits) => permits,
            None => {
                if self.mailto_value().is_some() {
                    DEFAULT_POLITE_CONCURRENCY
                } else {
                    DEFAULT_PUBLIC_CONCURRENCY
                }
            },
        }
    }
}

} // verus!
