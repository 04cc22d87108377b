use terminal_light::background_color;
use terminal_light::xterm::query_bg_color;
use terminal_light::Color;
use terminal_light::TlError;

// The terminal probe's outcome depends on where the tests run: under a
// harness there is no answering terminal and the probe fails, while in
// a real terminal it may answer with a precise color. The assertions
// below accept a probe success but pin the fallback behavior.

#[test]
fn probe_failure_falls_back_to_the_environment_value() {
    match background_color(Some("17;45")) {
        Ok(Color::Ansi(a)) => assert_eq!(a.code, 45),
        Ok(Color::Rgb(_)) => {}
        Err(e) => panic!("a parsable environment value may not end in {:?}", e),
    }
}

#[test]
fn no_strategy_at_all_is_unsupported() {
    match background_color(None) {
        Ok(Color::Rgb(_)) => {}
        Ok(Color::Ansi(a)) => panic!("no environment value, yet got palette code {}", a.code),
        Err(e) => assert!(matches!(e, TlError::Unsupported)),
    }
}

#[test]
fn bad_environment_value_is_unsupported_too() {
    match background_color(Some("nonsense")) {
        Ok(Color::Rgb(_)) => {}
        Ok(Color::Ansi(a)) => panic!("unparsable environment value, yet got code {}", a.code),
        Err(e) => assert!(matches!(e, TlError::Unsupported)),
    }
}

#[test]
fn probe_never_reports_an_environment_error() {
    match query_bg_color() {
        Ok(c) => {
            // a probe success comes from a parsed reply: channels are
            // two hex digits each
            assert!(c.r <= 255 && c.g <= 255 && c.b <= 255);
        }
        Err(e) => assert!(!matches!(e, TlError::NoColorFgBgEnv)),
    }
}
