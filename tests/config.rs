use home::config::{listen_addr, log_filter, parse_port, port_setting, ConfigError, DEFAULT_PORT};

#[test]
fn port_from_setting_8080() {
    assert_eq!(port_setting(Some("8080")), Ok(8080));
    let addr = listen_addr(port_setting(Some("8080")).unwrap());
    assert_eq!(addr.octets, [0, 0, 0, 0]);
    assert_eq!(addr.port, 8080);
}

#[test]
fn port_not_a_number_is_rejected() {
    assert_eq!(port_setting(Some("notanumber")), Err(ConfigError::InvalidPort));
}

#[test]
fn port_defaults_to_3000() {
    assert_eq!(DEFAULT_PORT, 3000);
    assert_eq!(port_setting(None), Ok(3000));
    assert_eq!(listen_addr(port_setting(None).unwrap()).port, 3000);
}

#[test]
fn port_edge_values() {
    assert_eq!(parse_port("0"), Ok(0));
    assert_eq!(parse_port("65535"), Ok(65535));
    assert_eq!(parse_port("65536"), Err(ConfigError::InvalidPort));
    assert_eq!(parse_port("99999999999999999999"), Err(ConfigError::InvalidPort));
    assert_eq!(parse_port("+80"), Ok(80));
    assert_eq!(parse_port("0003000"), Ok(3000));
}

#[test]
fn port_malformed_text() {
    for text in ["", "+", "-", "-1", "-0", " 80", "80 ", "8_0", "0x50", "++80", "80a", "\u{663}"] {
        assert_eq!(parse_port(text), Err(ConfigError::InvalidPort), "{text:?}");
    }
}

#[test]
fn port_agrees_with_std_parse() {
    let samples = [
        "", "+", "-", "0", "00", "1", "+1", "-1", "8080", "3000", "65535", "65536", "70000",
        "123456", "+65535", "+65536", "12a", "a12", " 1", "1 ", "999999", "0065535", "1e3",
    ];
    for text in samples {
        assert_eq!(parse_port(text).ok(), text.parse::<u16>().ok(), "{text:?}");
    }
    for n in (0u32..=70000).step_by(997) {
        let text = n.to_string();
        assert_eq!(parse_port(&text).ok(), text.parse::<u16>().ok(), "{text:?}");
    }
}

#[test]
fn log_filter_default_and_override() {
    assert_eq!(log_filter(None), "info");
    assert_eq!(log_filter(Some("debug,tower_http=trace".to_string())), "debug,tower_http=trace");
    assert_eq!(log_filter(Some(String::new())), "");
}
