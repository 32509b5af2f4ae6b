//! The settings the program runs with, checked as they are read.
use vstd::prelude::*;

use crate::text::{
    parse_bool, parse_u16, parse_u64, parse_unsigned, starts_with_str, trim_trailing_slashes,
    without_trailing_slashes,
};

verus! {

/// The poll interval in seconds when none is set.
pub const DEFAULT_POLL_INTERVAL: u64 = 300;

/// The web port when none is set.
pub const DEFAULT_WEB_PORT: u16 = 8080;

/// Settings of the program.
#[derive(Debug, Clone)]
pub struct Config {
    /// Base URL of the reader, without trailing slashes.
    pub miniflux_url: String,
    pub miniflux_token: String,
    /// Seconds between two cycles.
    pub poll_interval: u64,
    pub web_enabled: bool,
    pub web_port: u16,
}

/// Why settings were refused.
#[derive(Debug, Clone, Copy, PartialEq, Eq, Structural)]
pub enum ConfigError {
    MissingUrl,
    MissingToken,
    InvalidPollInterval,
    InvalidWebPort,
    /// The URL starts with neither `http://` nor `https://`.
    InvalidUrlScheme,
    EmptyToken,
}

/// The poll interval a setting gives, if it is valid.
pub open spec fn poll_interval_of(setting: Option<String>) -> Option<nat> {
    match setting {
        None => Some(DEFAULT_POLL_INTERVAL as nat),
        Some(s) => parse_unsigned(s@, u64::MAX as nat),
    }
}

/// The web port a setting gives, if it is valid.
pub open spec fn web_port_of(setting: Option<String>) -> Option<nat> {
    match setting {
        None => Some(DEFAULT_WEB_PORT as nat),
        Some(s) => parse_unsigned(s@, u16::MAX as nat),
    }
}

/// The web interface is on unless the setting is exactly `"false"`.
pub open spec fn web_enabled_of(setting: Option<String>) -> bool {
    match setting {
        Some(s) => s@ != "false"@,
        None => true,
    }
}

/// `url` starts with `http://` or `https://`.
pub open spec fn is_http_url(url: Seq<char>) -> bool {
    "http://"@.is_prefix_of(url) || "https://"@.is_prefix_of(url)
}

/// The first fault of the settings, in the order they are checked.
pub open spec fn config_fault(
    url: Option<String>,
    token: Option<String>,
    poll_interval: Option<String>,
    web_port: Option<String>,
) -> Option<ConfigError> {
    if url is None {
        Some(ConfigError::MissingUrl)
    } else if token is None {
        Some(ConfigError::MissingToken)
    } else if poll_interval_of(poll_interval) is None {
        Some(ConfigError::InvalidPollInterval)
    } else if web_port_of(web_port) is None {
        Some(ConfigError::InvalidWebPort)
    } else if !is_http_url(url->0@) {
        Some(ConfigError::InvalidUrlScheme)
    } else if token->0@.len() == 0 {
        Some(ConfigError::EmptyToken)
    } else {
        None
    }
}

/// Whether `url` starts with `http://` or `https://`.
pub fn has_http_scheme(url: &str) -> (r: bool)
    ensures
        r == is_http_url(url@),
{
    starts_with_str(url, "http://") || starts_with_str(url, "https://")
}

impl Config {
    /// Builds the settings from the values of the environment variables
    /// (`None` where one is unset): the URL and token are required, the poll
    /// interval defaults to 300 s, the web interface to on, the port to 8080.
    pub fn from_env_values(
        url: Option<String>,
        token: Option<String>,
        poll_interval: Option<String>,
        web_enabled: Option<String>,
        web_port: Option<String>,
    ) -> (r: Result<Config, ConfigError>)
        ensures
            r is Ok <==> config_fault(url, token, poll_interval, web_port) is None,
            r matches Err(e) ==> Some(e) == config_fault(url, token, poll_interval, web_port),
            r matches Ok(c) ==> c.miniflux_url@ == without_trailing_slashes(url->0@),
            r matches Ok(c) ==> c.miniflux_token@ == token->0@,
            r matches Ok(c) ==> c.poll_interval == poll_interval_of(poll_interval)->0,
            r matches Ok(c) ==> c.web_enabled == web_enabled_of(web_enabled),
            r matches Ok(c) ==> c.web_port == web_port_of(web_port)->0,
    {
        let url = match url {
            Some(u) => u,
            None => return Err(ConfigError::MissingUrl),
        };
        let token = match token {
            Some(t) => t,
            None => return Err(ConfigError::MissingToken),
        };
        let poll_interval = match poll_interval {
            None => DEFAULT_POLL_INTERVAL,
            Some(s) => match parse_u64(s.as_str()) {
                Some(v) => v,
                None => return Err(ConfigError::InvalidPollInterval),
            },
        };
        let web_enabled = match web_enabled {
            None => true,
            Some(s) => match parse_bool(s.as_str()) {
                Some(b) => b,
                None => true,
            },
        };
        let web_port = match web_port {
            None => DEFAULT_WEB_PORT,
            Some(s) => match parse_u16(s.as_str()) {
                Some(v) => v,
                None => return Err(ConfigError::InvalidWebPort),
            },
        };
        if !has_http_scheme(url.as_str()) {
            return Err(ConfigError::InvalidUrlScheme);
        }
        let miniflux_url = trim_trailing_slashes(url.as_str());
        if token.as_str().is_empty() {
            return Err(ConfigError::EmptyToken);
        }
        proof {
            reveal_strlit("true");
            reveal_strlit("false");
            assert("true"@.len() != "false"@.len());
        }
        Ok(Config { miniflux_url, miniflux_token: token, poll_interval, web_enabled, web_port })
    }
}

} // verus!
