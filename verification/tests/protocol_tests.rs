use hyrcon_client::protocol::{ParseProtocolError, Protocol};

#[test]
fn default_is_source() {
    assert_eq!(Protocol::default(), Protocol::Source);
}

#[test]
fn default_ports_match_expectations() {
    assert_eq!(Protocol::Source.default_port(), 25_575);
    assert_eq!(Protocol::Hyrcon.default_port(), 5_522);
}

#[test]
fn parse_accepts_common_aliases() {
    assert_eq!("source".parse::<Protocol>(), Ok(Protocol::Source));
    assert_eq!("SRC".parse::<Protocol>(), Ok(Protocol::Source));
    assert_eq!("hyrcon".parse::<Protocol>(), Ok(Protocol::Hyrcon));
    assert_eq!("LEGACY".parse::<Protocol>(), Ok(Protocol::Hyrcon));
}

#[test]
fn parse_rejects_unknown_values() {
    let err = "minecraft".parse::<Protocol>().unwrap_err();
    assert_eq!(err.input(), "minecraft");
    assert_eq!(err.message(), "unsupported protocol `minecraft`");
}

#[test]
fn parse_ignores_surrounding_whitespace() {
    assert_eq!("  Source \n".parse::<Protocol>(), Ok(Protocol::Source));
    assert_eq!("\tlegacy ".parse::<Protocol>(), Ok(Protocol::Hyrcon));
}

#[test]
fn parse_error_keeps_original_input() {
    let err = Protocol::parse(" sources ").unwrap_err();
    assert_eq!(err.input(), " sources ");
    let rebuilt = ParseProtocolError::new("xyz".to_string());
    assert_eq!(rebuilt.input(), "xyz");
    assert_eq!(rebuilt.message(), "unsupported protocol `xyz`");
}

#[test]
fn canonical_names_round_trip() {
    assert_eq!(Protocol::Source.as_str(), "source");
    assert_eq!(Protocol::Hyrcon.as_str(), "hyrcon");
    assert_eq!(Protocol::Source.as_str().parse::<Protocol>(), Ok(Protocol::Source));
    assert_eq!(Protocol::Hyrcon.as_str().parse::<Protocol>(), Ok(Protocol::Hyrcon));
}
