use statusbar::text::{
    capacity_value, first_token_str, parse_u8_str, str_eq, trim_str, two_digit_str, u8_dec_str,
};

#[test]
fn trim_removes_surrounding_whitespace() {
    assert_eq!(trim_str("  hi \n"), "hi");
    assert_eq!(trim_str("Charging\n"), "Charging");
    assert_eq!(trim_str(""), "");
    assert_eq!(trim_str(" \t\r\n"), "");
    assert_eq!(trim_str("a b"), "a b");
}

#[test]
fn trim_matches_std() {
    for s in ["  hi \n", "Charging\n", "", " \t\r\n", "a b", "x", "  "] {
        assert_eq!(trim_str(s), s.trim());
    }
}

#[test]
fn first_token_takes_first_field() {
    assert_eq!(first_token_str("0.42 0.38 0.41 1/123 4567\n"), "0.42");
    assert_eq!(first_token_str("  lead tail"), "lead");
    assert_eq!(first_token_str(""), "");
    assert_eq!(first_token_str("   \n"), "");
}

#[test]
fn first_token_matches_std() {
    for s in ["0.42 0.38", "  lead tail", "", "   \n", "one"] {
        assert_eq!(
            first_token_str(s),
            s.split_whitespace().next().unwrap_or("")
        );
    }
}

#[test]
fn parse_u8_accepts_what_std_accepts() {
    assert_eq!(parse_u8_str("55"), Some(55));
    assert_eq!(parse_u8_str("+55"), Some(55));
    assert_eq!(parse_u8_str("0055"), Some(55));
    assert_eq!(parse_u8_str("255"), Some(255));
    assert_eq!(parse_u8_str("0"), Some(0));
    assert_eq!(parse_u8_str("256"), None);
    assert_eq!(parse_u8_str("999"), None);
    assert_eq!(parse_u8_str(""), None);
    assert_eq!(parse_u8_str("+"), None);
    assert_eq!(parse_u8_str("5a"), None);
    assert_eq!(parse_u8_str("-5"), None);
    assert_eq!(parse_u8_str("N/A"), None);
    for s in ["55", "+55", "0055", "255", "256", "", "+", "5a", "-5", "N/A", "007"] {
        assert_eq!(parse_u8_str(s), s.parse::<u8>().ok(), "input {:?}", s);
    }
}

#[test]
fn capacity_defaults_to_zero_on_bad_text() {
    assert_eq!(capacity_value("55\n"), 55);
    assert_eq!(capacity_value(" 100 "), 100);
    assert_eq!(capacity_value("N/A"), 0);
    assert_eq!(capacity_value(""), 0);
    assert_eq!(capacity_value("abc"), 0);
    assert_eq!(capacity_value("300"), 0);
}

#[test]
fn str_eq_is_string_equality() {
    assert!(str_eq("up", "up"));
    assert!(!str_eq("up", "down"));
    assert!(!str_eq("up", "up "));
    assert!(str_eq("", ""));
}

#[test]
fn u8_decimal_rendering() {
    assert_eq!(u8_dec_str(0), "0");
    assert_eq!(u8_dec_str(7), "7");
    assert_eq!(u8_dec_str(55), "55");
    assert_eq!(u8_dec_str(100), "100");
    assert_eq!(u8_dec_str(255), "255");
}

#[test]
fn two_digit_zero_pads() {
    assert_eq!(two_digit_str(0), "00");
    assert_eq!(two_digit_str(5), "05");
    assert_eq!(two_digit_str(12), "12");
    assert_eq!(two_digit_str(59), "59");
}
