use user_service::config::{parse_port, ConfigError, ServerConfig, DEFAULT_PORT};

fn text(s: &str) -> Option<String> {
    Some(s.to_string())
}

#[test]
fn port_is_read_as_a_decimal_number() {
    assert_eq!(parse_port("8000"), Some(8000));
    assert_eq!(parse_port("0"), Some(0));
    assert_eq!(parse_port("80"), Some(80));
    assert_eq!(parse_port("+443"), Some(443));
    assert_eq!(parse_port("65535"), Some(65535));
    assert_eq!(parse_port("0000000000000000000008080"), Some(8080));
}

#[test]
fn port_out_of_range_or_malformed_is_refused() {
    assert_eq!(parse_port(""), None);
    assert_eq!(parse_port("+"), None);
    assert_eq!(parse_port("65536"), None);
    assert_eq!(parse_port("99999999999999999999"), None);
    assert_eq!(parse_port("-1"), None);
    assert_eq!(parse_port("-0"), None);
    assert_eq!(parse_port("++1"), None);
    assert_eq!(parse_port(" 80"), None);
    assert_eq!(parse_port("80 "), None);
    assert_eq!(parse_port("8_000"), None);
    assert_eq!(parse_port("0x50"), None);
    assert_eq!(parse_port("80+"), None);
    assert_eq!(parse_port("\u{ff18}\u{ff10}"), None);
    assert_eq!(parse_port("8\u{e9}0"), None);
}

#[test]
fn port_reading_agrees_with_the_standard_parser() {
    let samples = [
        "", "+", "-", "0", "+0", "-0", "1", "007", "8000", "+8000", "65535", "+65535", "65536",
        "655350", "70000", "4294967296", "4294967376", "12a", "a12", "1 2", "1\n", "+-3", "٣",
    ];
    for sample in samples {
        assert_eq!(parse_port(sample), sample.parse::<u16>().ok(), "{:?}", sample);
    }
}

#[test]
fn settings_fall_back_to_defaults() {
    assert_eq!(DEFAULT_PORT, 8000);
    assert_eq!(
        ServerConfig::from_settings(None, None, text("postgres://localhost/users")),
        Ok(ServerConfig {
            host: "0.0.0.0".to_string(),
            port: 8000,
            database_url: "postgres://localhost/users".to_string(),
        })
    );
    assert_eq!(
        ServerConfig::from_settings(text("127.0.0.1"), text("9090"), text("postgres://db/users")),
        Ok(ServerConfig {
            host: "127.0.0.1".to_string(),
            port: 9090,
            database_url: "postgres://db/users".to_string(),
        })
    );
}

#[test]
fn settings_without_connection_string_are_refused() {
    assert_eq!(
        ServerConfig::from_settings(None, None, None),
        Err(ConfigError::MissingDatabaseUrl)
    );
    assert_eq!(
        ServerConfig::from_settings(text("localhost"), text("80"), None),
        Err(ConfigError::MissingDatabaseUrl)
    );
}

#[test]
fn bad_port_is_reported_first() {
    assert_eq!(
        ServerConfig::from_settings(None, text("http"), text("postgres://db/users")),
        Err(ConfigError::InvalidPort)
    );
    assert_eq!(ServerConfig::from_settings(None, text("70000"), None), Err(ConfigError::InvalidPort));
    assert_eq!(ServerConfig::from_settings(None, text(""), None), Err(ConfigError::InvalidPort));
}
