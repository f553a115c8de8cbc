use redirect_service::config::{find_value, parse_conn_str, ConfigError};

#[test]
fn parses_a_full_connection_string() {
    let cfg = parse_conn_str(
        "Endpoint=sb://ns.servicebus.windows.net/;SharedAccessKeyName=RootManageSharedAccessKey;SharedAccessKey=SECRET-REDACTED",
    )
    .unwrap();
    assert_eq!(cfg.endpoint, "ns.servicebus.windows.net");
    assert_eq!(cfg.key_name, "RootManageSharedAccessKey");
    assert_eq!(cfg.key, "SECRET-REDACTED");
}

#[test]
fn missing_endpoint_is_a_configuration_error() {
    assert_eq!(
        parse_conn_str("SharedAccessKeyName=n;SharedAccessKey=k"),
        Err(ConfigError::MissingEndpoint)
    );
    assert_eq!(parse_conn_str(""), Err(ConfigError::MissingEndpoint));
    assert_eq!(parse_conn_str("Endpoint"), Err(ConfigError::MissingEndpoint));
}

#[test]
fn missing_key_name_and_key_read_as_empty() {
    let cfg = parse_conn_str("Endpoint=sb://host/").unwrap();
    assert_eq!(cfg.endpoint, "host");
    assert_eq!(cfg.key_name, "");
    assert_eq!(cfg.key, "");
}

#[test]
fn later_entry_overrides_earlier() {
    assert_eq!(find_value("a=1;b=2;a=3", "a"), Some("3".to_string()));
    assert_eq!(find_value("a=1;b=2;a=3", "b"), Some("2".to_string()));
    assert_eq!(find_value("a=1;b=2", "c"), None);
}

#[test]
fn value_keeps_later_equals_signs() {
    assert_eq!(find_value("SharedAccessKey=abc=;x", "SharedAccessKey"), Some("abc=".to_string()));
    assert_eq!(find_value("k=", "k"), Some(String::new()));
}

#[test]
fn endpoint_drops_scheme_and_trailing_slashes() {
    let cfg = parse_conn_str("Endpoint=sb://host.example//").unwrap();
    assert_eq!(cfg.endpoint, "host.example");
    let cfg = parse_conn_str(";;Endpoint=plainhost;").unwrap();
    assert_eq!(cfg.endpoint, "plainhost");
}
