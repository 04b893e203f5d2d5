use healthwatch::config::{Config, ConfigError};

#[test]
fn invalid_url_is_rejected_before_any_probing() {
    let result = Config::new(String::from("not-a-url"), 15, 3, 10);
    assert_eq!(result.unwrap_err(), ConfigError::InvalidUrl);
}

#[test]
fn empty_url_is_rejected() {
    let result = Config::new(String::from(""), 15, 3, 10);
    assert_eq!(result.unwrap_err(), ConfigError::InvalidUrl);
}

#[test]
fn valid_url_keeps_its_text_and_extracts_the_path() {
    let config = Config::new(
        String::from("https://example.com/api/versions?page=2"),
        15,
        3,
        10,
    )
    .unwrap();
    assert_eq!(config.url.as_str(), "https://example.com/api/versions?page=2");
    assert_eq!(config.path.as_str(), "/api/versions");
    assert_eq!(config.delay_secs, 15);
    assert_eq!(config.failure_threshold, 3);
    assert_eq!(config.timeout_secs, 10);
}

#[test]
fn bare_host_has_the_root_path() {
    let config = Config::new(String::from("http://example.com"), 1, 1, 1).unwrap();
    assert_eq!(config.path.as_str(), "/");
}
