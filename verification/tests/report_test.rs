use edi::report::parse_cursor_report;

#[test]
fn well_formed_report_parses() {
    let resp = b"\x1b[24;80R".to_vec();
    assert_eq!(parse_cursor_report(&resp), Some((24, 80)));
}

#[test]
fn single_digit_and_leading_zeros_parse() {
    assert_eq!(parse_cursor_report(&b"\x1b[1;1R".to_vec()), Some((1, 1)));
    assert_eq!(parse_cursor_report(&b"\x1b[007;08R".to_vec()), Some((7, 8)));
}

#[test]
fn largest_u16_parses_and_overflow_fails() {
    assert_eq!(parse_cursor_report(&b"\x1b[65535;1R".to_vec()), Some((65535, 1)));
    assert_eq!(parse_cursor_report(&b"\x1b[65536;1R".to_vec()), None);
    assert_eq!(parse_cursor_report(&b"\x1b[1;99999R".to_vec()), None);
}

#[test]
fn malformed_reports_fail() {
    assert_eq!(parse_cursor_report(&b"".to_vec()), None);
    assert_eq!(parse_cursor_report(&b"\x1b[".to_vec()), None);
    assert_eq!(parse_cursor_report(&b"\x1b[;80R".to_vec()), None);
    assert_eq!(parse_cursor_report(&b"\x1b[24R".to_vec()), None);
    assert_eq!(parse_cursor_report(&b"\x1b[24;R".to_vec()), None);
    assert_eq!(parse_cursor_report(&b"\x1b[24;80".to_vec()), None);
    assert_eq!(parse_cursor_report(&b"x[24;80R".to_vec()), None);
    assert_eq!(parse_cursor_report(&b"\x1b[24;80Rx".to_vec()), None);
    assert_eq!(parse_cursor_report(&b"\x1b[24x;80R".to_vec()), None);
}
