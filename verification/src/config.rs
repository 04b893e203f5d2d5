//! Startup configuration: the target URL with its displayed path component,
//! and the three numeric knobs of the loop. An invalid URL is rejected here,
//! before any probing begins.

use vstd::prelude::*;

verus! {

/// The path component of a string that parses as an absolute URL, when it
/// does parse as one.
pub uninterp spec fn url_path_of(text: Seq<char>) -> Option<Seq<char>>;

/// Relies on `url::Url::parse` and `url::Url::path`: whether a string
/// parses as an absolute URL, and the path component of the parsed URL,
/// depend on the string alone.
#[verifier::external_body]
fn parse_url_path(text: &str) -> (path: Option<String>)
    ensures
        path is Some <==> url_path_of(text@) is Some,
        path matches Some(p) ==> p@ == url_path_of(text@)->0,
{
    match url::Url::parse(text) {
        Ok(parsed) => Some(parsed.path().to_string()),
        Err(_) => None,
    }
}

/// A startup error: the process must exit before the loop begins.
#[derive(Clone, Copy, Debug, PartialEq, Eq, Structural)]
pub enum ConfigError {
    InvalidUrl,
}

/// The immutable configuration of a run.
#[derive(Debug)]
pub struct Config {
    /// The target URL, kept as the text it was given as.
    pub url: String,
    /// The path component of the target URL, shown in every status line.
    pub path: String,
    /// Seconds to sleep between iterations.
    pub delay_secs: u64,
    /// Consecutive failures at which the label turns DOWN.
    pub failure_threshold: u64,
    /// Per-request timeout in seconds.
    pub timeout_secs: u64,
}

impl Config {
    /// Validate the target URL and assemble the configuration. Succeeds
    /// exactly when the URL parses as an absolute URL; the stored path is
    /// the URL's path component.
    pub fn new(url: String, delay_secs: u64, failure_threshold: u64, timeout_secs: u64) -> (result:
        Result<Config, ConfigError>)
        ensures
            result is Ok <==> url_path_of(url@) is Some,
            result matches Ok(config) ==> config.url@ == url@ && config.path@ == url_path_of(
                url@,
            )->0 && config.delay_secs == delay_secs && config.failure_threshold
                == failure_threshold && config.timeout_secs == timeout_secs,
            result matches Err(error) ==> error == ConfigError::InvalidUrl,
    {
        match parse_url_path(url.as_str()) {
            Some(path) => Ok(
                Config { url, path, delay_secs, failure_threshold, timeout_secs },
            ),
            None => Err(ConfigError::InvalidUrl),
        }
    }
}

} // verus!
