use terminal_light::env::bg_color;
use terminal_light::env::parse_colorfgbg;
use terminal_light::env::parse_u8_dec;
use terminal_light::AnsiColor;
use terminal_light::TlError;

#[test]
fn test_parse_color_fgbg() {
    assert_eq!(parse_colorfgbg("17;45").unwrap(), AnsiColor::new(45));
    assert_eq!(parse_colorfgbg("0;default;15").unwrap(), AnsiColor::new(15));
    assert!(matches!(
        parse_colorfgbg("15").unwrap_err(),
        TlError::WrongFormat(_)
    ));
    assert!(matches!(
        parse_colorfgbg("15;FF").unwrap_err(),
        TlError::ParseInt(_)
    ));
}

#[test]
fn wrong_format_carries_the_whole_value() {
    match parse_colorfgbg("0;1;2;3").unwrap_err() {
        TlError::WrongFormat(t) => assert_eq!(t, "0;1;2;3"),
        e => panic!("expected WrongFormat, got {:?}", e),
    }
}

#[test]
fn parse_int_carries_the_bad_token() {
    match parse_colorfgbg("15;FF").unwrap_err() {
        TlError::ParseInt(t) => assert_eq!(t, "FF"),
        e => panic!("expected ParseInt, got {:?}", e),
    }
}

#[test]
fn empty_value_is_wrong_format() {
    assert!(matches!(
        parse_colorfgbg("").unwrap_err(),
        TlError::WrongFormat(_)
    ));
}

#[test]
fn empty_background_token_is_parse_int() {
    assert!(matches!(
        parse_colorfgbg("17;").unwrap_err(),
        TlError::ParseInt(_)
    ));
}

#[test]
fn largest_code_is_accepted() {
    assert_eq!(parse_colorfgbg("17;255").unwrap(), AnsiColor::new(255));
}

#[test]
fn code_over_a_byte_is_parse_int() {
    assert!(matches!(
        parse_colorfgbg("17;256").unwrap_err(),
        TlError::ParseInt(_)
    ));
}

#[test]
fn leading_plus_parses_as_std_does() {
    assert_eq!("+45".parse::<u8>().unwrap(), 45);
    assert_eq!(parse_u8_dec("+45"), Some(45));
    assert_eq!(parse_colorfgbg("17;+45").unwrap(), AnsiColor::new(45));
}

#[test]
fn parse_u8_dec_matches_std() {
    for s in ["", "+", "0", "007", "255", "256", "999999999999999", "4x", "x4", "-1"] {
        assert_eq!(parse_u8_dec(s), s.parse::<u8>().ok(), "on {:?}", s);
    }
}

#[test]
fn absent_variable_is_its_own_error() {
    assert!(matches!(bg_color(None).unwrap_err(), TlError::NoColorFgBgEnv));
}

#[test]
fn present_variable_is_parsed() {
    assert_eq!(bg_color(Some("17;45")).unwrap(), AnsiColor::new(45));
}
