//! What a Crossref client is built from and what it sends.

use crate::agent::{text_of, user_agent, user_agent_of};
use crate::crossref::config::CrossrefConfig;
use crate::crossref::rate_limit::requests_per_second;
use crate::crossref::retry::{usable_bounds, RetryAfterPolicy};
use crate::text::{configured, slash, strip_end};
use crate::time::TimeSpan;
use crate::Doi;
use vstd::prelude::*;
use vstd::string::StringExecFns;

verus! {

/// What a client is built from, each value as it is in force.
#[derive(Debug, Clone, PartialEq)]
pub struct ClientSettings {
    /// The base URL without trailing slashes.
    pub base_url: String,
    /// The `User-Agent` header, where the client names itself.
    pub user_agent: Option<String>,
    /// The number of permits in the pool: one at least.
    pub concurrency: usize,
    /// The capacity of the token bucket, in requests per second: one at
    /// least.
    pub rate_limit_per_sec: u32,
    /// The time that one request may take.
    pub timeout: TimeSpan,
    /// The bounds within which a request is repeated.
    pub retry: RetryAfterPolicy,
}

/// The number of permits in force: the configured concurrency, but one at
/// least.
pub open spec fn permits_of(config: CrossrefConfig) -> usize {
    if config.concurrency_limit() < 1 {
        1
    } else {
        config.concurrency_limit()
    }
}

/// The capacity of the token bucket in force: the configured rate limit,
/// but one request per second at least.
pub open spec fn rate_of(config: CrossrefConfig) -> u32 {
    if config.rate_limit() < 1 {
        1
    } else {
        config.rate_limit()
    }
}

/// The number of permits in the pool of a client with this configuration.
pub fn permits(config: &CrossrefConfig) -> (count: usize)
    ensures
        count == permits_of(*config),
        count >= 1,
{
    let configured = config.concurrency_value();
    if configured < 1 {
        1
    } else {
        configured
    }
}

/// The `User-Agent` header of the client: the application's name, then the
/// contact address behind `mailto:`, as far as either is configured. The
/// contact goes nowhere else: the request carries no `mailto` parameter.
pub fn user_agent_header_value(config: &CrossrefConfig) -> (header: Option<String>)
    ensures
        text_of(header) == user_agent_of(configured(config.user_agent), configured(config.mailto)),
{
    user_agent(config.user_agent_value(), config.mailto_value())
}

/// Works out what a client with this configuration is built from. There is
/// no such client where the retry bounds are unusable.
pub fn settings(config: &CrossrefConfig) -> (built: Option<ClientSettings>)
    ensures
        built is Some <==> usable_bounds(config.retry_min_backoff, config.retry_max_backoff),
        built matches Some(s) ==> {
            &&& s.base_url@ == strip_end(config.base_url@, slash())
            &&& text_of(s.user_agent) == user_agent_of(
                configured(config.user_agent),
                configured(config.mailto),
            )
            &&& s.concurrency == permits_of(*config)
            &&& s.rate_limit_per_sec == rate_of(*config)
            &&& s.timeout == config.timeout
            &&& s.retry == (RetryAfterPolicy {
                min_backoff: config.retry_min_backoff,
                max_backoff: config.retry_max_backoff,
                jitter: config.retry_jitter,
                max_retries: config.retry_max,
            })
        },
{
    match RetryAfterPolicy::new(
        config.retry_min_backoff,
        config.retry_max_backoff,
        config.retry_jitter,
        config.retry_max,
    ) {
        Some(retry) => Some(
            ClientSettings {
                base_url: config.base_url_value(),
                user_agent: user_agent_header_value(config),
                concurrency: permits(config),
                rate_limit_per_sec: requests_per_second(config.rate_limit_per_sec_value()),
                timeout: config.timeout,
                retry,
            },
        ),
        None => None,
    }
}

/// The URL of the record of a DOI: `<base_url>/works/<canonical DOI>`.
pub fn works_url(base_url: &str, doi: &Doi) -> (url: String)
    ensures
        url@ == base_url@ + "/works/"@ + doi.canonical@,
{
    let mut url = String::from_str(base_url);
    url.append("/works/");
    url.append(doi.canonical.as_str());
    url
}

} // verus!
