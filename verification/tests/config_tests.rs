use ai_api::config::{parse_body_size, ApiConfig, ConfigError};

#[test]
fn parses_body_size_mb() {
    assert_eq!(parse_body_size("2MB").ok().unwrap(), 2 * 1024 * 1024);
}

#[test]
fn resolves_relative_path_against_data_root() {
    let config = ApiConfig::for_test("/data");
    assert_eq!(config.resolve_data_path("clients/sample.json"), "/data/clients/sample.json");
}

#[test]
fn keeps_absolute_path() {
    let config = ApiConfig::for_test("/data");
    assert_eq!(config.resolve_data_path("/abs/client.json"), "/abs/client.json");
}

#[test]
fn parses_body_size_kb_and_plain_bytes() {
    assert_eq!(parse_body_size("3kb").ok().unwrap(), 3 * 1024);
    assert_eq!(parse_body_size(" 4 MB ").ok().unwrap(), 4 * 1024 * 1024);
    assert_eq!(parse_body_size("512").ok().unwrap(), 512);
}

#[test]
fn rejects_bad_body_size() {
    match parse_body_size("lots") {
        Err(ConfigError::Invalid(m)) => assert_eq!(m, "invalid body size: lots"),
        Ok(_) => panic!("accepted a bad body size"),
    }
}

#[test]
fn bind_address_joins_host_and_port() {
    let config = ApiConfig::for_test("/data");
    let expected = format!("{}:{}", config.host, config.port);
    assert_eq!(config.bind_address(), expected);
}

#[test]
fn config_error_text() {
    let e = ConfigError::Invalid("x".to_string());
    assert_eq!(e.text(), "invalid configuration: x");
    let b = ConfigError::bad_bind_address("nope");
    assert_eq!(b.message(), "invalid bind address: nope");
}
