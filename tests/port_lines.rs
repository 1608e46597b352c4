use launcher::port::{parse_port_line, parse_u16, reported_ports, PortScanner};

#[test]
fn port_line_yields_port() {
    assert_eq!(parse_port_line("BACKEND_PORT:8421"), Some(8421));
}

#[test]
fn port_line_suffix_is_trimmed() {
    assert_eq!(parse_port_line("BACKEND_PORT: 8421 \r"), Some(8421));
}

#[test]
fn port_line_not_a_number_is_ignored() {
    assert_eq!(parse_port_line("BACKEND_PORT:notanumber"), None);
    assert_eq!(parse_port_line("BACKEND_PORT:"), None);
    assert_eq!(parse_port_line("BACKEND_PORT:-1"), None);
}

#[test]
fn port_line_out_of_range_is_ignored() {
    assert_eq!(parse_port_line("BACKEND_PORT:65536"), None);
    assert_eq!(parse_port_line("BACKEND_PORT:65535"), Some(65535));
}

#[test]
fn other_lines_are_ignored() {
    assert_eq!(parse_port_line("Started application in 3.2 seconds"), None);
    assert_eq!(parse_port_line(" BACKEND_PORT:8421"), None);
    assert_eq!(parse_port_line("backend_port:8421"), None);
}

#[test]
fn u16_text_follows_std() {
    for text in ["0", "+7", "00080", "65535", "65536", "", "+", "-3", "12a", "99999999999"] {
        assert_eq!(parse_u16(text), text.parse::<u16>().ok(), "{}", text);
    }
}

#[test]
fn duplicated_port_line_is_reported_once() {
    let lines = vec![
        "starting".to_string(),
        "BACKEND_PORT:8421".to_string(),
        "BACKEND_PORT:8421".to_string(),
        "BACKEND_PORT:9000".to_string(),
    ];
    assert_eq!(reported_ports(&lines), vec![8421]);
}

#[test]
fn malformed_port_line_does_not_stop_scanning() {
    let lines = vec!["BACKEND_PORT:notanumber".to_string(), "BACKEND_PORT:9000".to_string()];
    assert_eq!(reported_ports(&lines), vec![9000]);
    let none = vec!["BACKEND_PORT:notanumber".to_string()];
    assert_eq!(reported_ports(&none), Vec::<u16>::new());
}

#[test]
fn scanner_hands_on_port_once() {
    let mut s = PortScanner::new();
    assert!(!s.port_sent());
    assert_eq!(s.on_line("hello"), None);
    assert_eq!(s.on_line("BACKEND_PORT:8421"), Some(8421));
    assert!(s.port_sent());
    assert_eq!(s.on_line("BACKEND_PORT:8421"), None);
}
