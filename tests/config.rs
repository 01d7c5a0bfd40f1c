use site_server::config::{parse_port, resolve_port, PortError, DEFAULT_PORT};

#[test]
fn absent_setting_gives_default_port() {
    assert_eq!(DEFAULT_PORT, 3001);
    assert_eq!(resolve_port(None), Ok(3001));
}

#[test]
fn present_setting_gives_its_port() {
    assert_eq!(resolve_port(Some("8080")), Ok(8080));
    assert_eq!(resolve_port(Some("0")), Ok(0));
    assert_eq!(resolve_port(Some("65535")), Ok(65535));
}

#[test]
fn sign_and_leading_zeros_are_accepted() {
    assert_eq!(parse_port("+80"), Ok(80));
    assert_eq!(parse_port("0080"), Ok(80));
    assert_eq!(parse_port("+000065535"), Ok(65535));
}

#[test]
fn empty_setting_is_rejected() {
    assert_eq!(parse_port(""), Err(PortError::Empty));
    assert_eq!(resolve_port(Some("")), Err(PortError::Empty));
}

#[test]
fn non_numeric_setting_is_rejected() {
    assert_eq!(parse_port("abc"), Err(PortError::InvalidDigit));
    assert_eq!(parse_port("+"), Err(PortError::InvalidDigit));
    assert_eq!(parse_port("-1"), Err(PortError::InvalidDigit));
    assert_eq!(parse_port("-0"), Err(PortError::InvalidDigit));
    assert_eq!(parse_port(" 80"), Err(PortError::InvalidDigit));
    assert_eq!(parse_port("80 "), Err(PortError::InvalidDigit));
    assert_eq!(parse_port("++80"), Err(PortError::InvalidDigit));
    assert_eq!(parse_port("8o8o"), Err(PortError::InvalidDigit));
    assert_eq!(parse_port("٣"), Err(PortError::InvalidDigit));
}

#[test]
fn out_of_range_setting_is_rejected() {
    assert_eq!(parse_port("65536"), Err(PortError::OutOfRange));
    assert_eq!(parse_port("99999999999999999999999"), Err(PortError::OutOfRange));
    assert_eq!(resolve_port(Some("70000")), Err(PortError::OutOfRange));
}

#[test]
fn every_port_reads_back_from_its_decimal_text() {
    for port in 0..=u16::MAX {
        assert_eq!(parse_port(&port.to_string()), Ok(port));
    }
}

#[test]
fn acceptance_agrees_with_std_parsing() {
    let samples = [
        "", "+", "-", "0", "00", "+0", "-0", "1", "+1", "-1", "65535", "65536", "065535",
        "99999", "100000", "3001", " 3001", "3001\n", "30 01", "0x10", "1e3", "١٢", "+-1",
        "-+1", "18446744073709551616", "000000000000000000000000000001",
    ];
    for s in samples {
        let ours = parse_port(s);
        match s.parse::<u16>() {
            Ok(n) => assert_eq!(ours, Ok(n), "input {:?}", s),
            Err(_) => assert!(ours.is_err(), "input {:?}", s),
        }
    }
}
