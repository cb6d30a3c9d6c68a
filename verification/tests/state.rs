use backend::state::{listen_port, parse_port, AppState, ConfigurationError, DEFAULT_PORT};

#[test]
fn missing_values_take_their_defaults() {
    let state = AppState::new(None, None).expect("builds");
    assert_eq!(state.env, "development");
    assert_eq!(state.jwt_secret, "default-secret-key-change-in-production");
    assert!(state.jwt_secret_set());
}

#[test]
fn configured_values_are_taken_as_they_are() {
    let state = AppState::new(Some("production".to_string()), Some("s3cr3t".to_string()))
        .expect("builds");
    assert_eq!(state.env, "production");
    assert_eq!(state.jwt_secret, "s3cr3t");
}

#[test]
fn each_value_is_defaulted_by_itself() {
    let state = AppState::new(Some("staging".to_string()), None).expect("builds");
    assert_eq!(state.env, "staging");
    assert_eq!(state.jwt_secret, "default-secret-key-change-in-production");
    let state = AppState::new(None, Some("other".to_string())).expect("builds");
    assert_eq!(state.env, "development");
    assert_eq!(state.jwt_secret, "other");
}

#[test]
fn empty_secret_is_kept_and_counts_as_not_set() {
    let state = AppState::new(Some(String::new()), Some(String::new())).expect("builds");
    assert_eq!(state.env, "");
    assert_eq!(state.jwt_secret, "");
    assert!(!state.jwt_secret_set());
}

#[test]
fn state_is_shared_by_clone() {
    let state = AppState::new(None, Some("shared".to_string())).expect("builds");
    let copy = state.clone();
    assert_eq!(copy.env, state.env);
    assert_eq!(copy.jwt_secret, state.jwt_secret);
}

#[test]
fn port_is_read_from_decimal_digits() {
    assert_eq!(parse_port("3000"), Some(3000));
    assert_eq!(parse_port("0"), Some(0));
    assert_eq!(parse_port("65535"), Some(65535));
    assert_eq!(parse_port("0080"), Some(80));
    assert_eq!(parse_port("+8080"), Some(8080));
    assert_eq!(parse_port("000000000000000000000000443"), Some(443));
}

#[test]
fn port_is_refused_when_it_is_no_number_below_65536() {
    for text in [
        "", "+", "-1", "-0", "++1", "65536", "99999999999999999999", " 80", "80 ", "8_0", "80a",
        "0x50", "8.0", "\u{664}\u{662}", "80\u{e9}", "\u{ff11}",
    ] {
        assert_eq!(parse_port(text), None, "{:?}", text);
    }
}

#[test]
fn port_reads_as_the_standard_parser_does() {
    for text in ["3000", "+1", "0", "65535", "65536", "", "+", "-7", "12ab", " 1", "007"] {
        assert_eq!(parse_port(text), text.parse::<u16>().ok(), "{:?}", text);
    }
}

#[test]
fn listen_port_defaults_to_3000() {
    assert_eq!(DEFAULT_PORT, 3000);
    assert_eq!(listen_port(None), Ok(3000));
    assert_eq!(listen_port(Some("8080")), Ok(8080));
    assert_eq!(listen_port(Some("http")), Err(ConfigurationError::InvalidPort));
    assert_eq!(listen_port(Some("")), Err(ConfigurationError::InvalidPort));
}
