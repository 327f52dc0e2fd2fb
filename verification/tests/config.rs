use lunchbox::env::{get_default, resolve_port, ConfigError, DEFAULT_PORT};

#[test]
fn get_default_prefers_found_value() {
    assert_eq!(get_default(Some("set".to_string()), "fallback"), "set");
    assert_eq!(get_default(None, "fallback"), "fallback");
    assert_eq!(get_default(Some(String::new()), "fallback"), "");
}

#[test]
fn port_defaults_to_80() {
    assert_eq!(DEFAULT_PORT, 80);
    assert_eq!(resolve_port(None), Ok(80));
}

#[test]
fn port_parses_decimal() {
    assert_eq!(resolve_port(Some("8080".to_string())), Ok(8080));
    assert_eq!(resolve_port(Some("+443".to_string())), Ok(443));
    assert_eq!(resolve_port(Some("0065535".to_string())), Ok(65535));
    assert_eq!(resolve_port(Some("0".to_string())), Ok(0));
}

#[test]
fn port_rejects_bad_text() {
    for bad in ["", "+", "65536", "-1", " 80", "80 ", "8_0", "http", "99999999999999999999"] {
        assert_eq!(resolve_port(Some(bad.to_string())), Err(ConfigError::InvalidPort), "{:?}", bad);
    }
}
