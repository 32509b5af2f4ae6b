use miniflux_filter::config::{has_http_scheme, Config, ConfigError};

fn s(v: &str) -> Option<String> {
    Some(v.to_string())
}

fn with_poll(poll: &str) -> Result<Config, ConfigError> {
    Config::from_env_values(s("https://miniflux.example.com"), s("test-token"), s(poll), None, None)
}

fn with_url(url: &str) -> Result<Config, ConfigError> {
    Config::from_env_values(s(url), s("test-token"), None, None, None)
}

#[test]
fn test_config_creation() {
    let config = Config {
        miniflux_url: "https://miniflux.example.com".to_string(),
        miniflux_token: "test-token".to_string(),
        poll_interval: 300,
        web_enabled: true,
        web_port: 8080,
    };
    assert_eq!(config.miniflux_url, "https://miniflux.example.com");
    assert_eq!(config.miniflux_token, "test-token");
    assert_eq!(config.poll_interval, 300);
}

#[test]
fn test_url_validation() {
    assert!(has_http_scheme("http://example.com"));
    assert!(has_http_scheme("https://example.com"));
    assert!(!has_http_scheme("invalid-url"));
    assert!(with_url("http://example.com").is_ok());
    assert!(with_url("https://example.com").is_ok());
    assert_eq!(with_url("invalid-url").unwrap_err(), ConfigError::InvalidUrlScheme);
}

#[test]
fn test_poll_interval_parsing() {
    assert_eq!(with_poll("300").unwrap().poll_interval, 300);
    assert_eq!(with_poll("600").unwrap().poll_interval, 600);
    assert_eq!(with_poll("invalid").unwrap_err(), ConfigError::InvalidPollInterval);
}

#[test]
fn defaults_apply_when_unset() {
    let c = with_url("https://miniflux.example.com/").unwrap();
    assert_eq!(c.miniflux_url, "https://miniflux.example.com");
    assert_eq!(c.miniflux_token, "test-token");
    assert_eq!(c.poll_interval, 300);
    assert!(c.web_enabled);
    assert_eq!(c.web_port, 8080);
}

#[test]
fn trailing_slashes_are_all_removed() {
    assert_eq!(with_url("http://host//").unwrap().miniflux_url, "http://host");
    assert_eq!(with_url("http://host/path/").unwrap().miniflux_url, "http://host/path");
}

#[test]
fn each_setting_error_has_its_input() {
    let none = Config::from_env_values(None, s("t"), None, None, None);
    assert_eq!(none.unwrap_err(), ConfigError::MissingUrl);
    let no_token = Config::from_env_values(s("http://h"), None, None, None, None);
    assert_eq!(no_token.unwrap_err(), ConfigError::MissingToken);
    let bad_port = Config::from_env_values(s("http://h"), s("t"), None, None, s("70000"));
    assert_eq!(bad_port.unwrap_err(), ConfigError::InvalidWebPort);
    let empty_token = Config::from_env_values(s("http://h"), s(""), None, None, None);
    assert_eq!(empty_token.unwrap_err(), ConfigError::EmptyToken);
    // The poll interval is checked before the URL scheme.
    let both = Config::from_env_values(s("ftp://h"), s("t"), s("x"), None, None);
    assert_eq!(both.unwrap_err(), ConfigError::InvalidPollInterval);
}

#[test]
fn web_settings_are_read() {
    let c = Config::from_env_values(s("http://h"), s("t"), s("+15"), s("false"), s("65535")).unwrap();
    assert_eq!(c.poll_interval, 15);
    assert!(!c.web_enabled);
    assert_eq!(c.web_port, 65535);
    let odd = Config::from_env_values(s("http://h"), s("t"), None, s("no"), None).unwrap();
    assert!(odd.web_enabled);
    let big = Config::from_env_values(s("http://h"), s("t"), s("18446744073709551615"), None, None);
    assert_eq!(big.unwrap().poll_interval, u64::MAX);
    let over = Config::from_env_values(s("http://h"), s("t"), s("18446744073709551616"), None, None);
    assert_eq!(over.unwrap_err(), ConfigError::InvalidPollInterval);
}
