use terminal_light::raw_mode::raw_mode_session;
use terminal_light::raw_mode::RawModeToggles;

#[test]
fn raw_mode_is_restored_after_a_successful_query() {
    let mut t = RawModeToggles::new(false);
    let ok = raw_mode_session(&mut t, true);
    assert!(ok);
    assert!(!t.raw);
    assert_eq!(t.enables, 1);
    assert_eq!(t.disables, 1);
}

#[test]
fn raw_mode_is_restored_after_a_failed_query() {
    let mut t = RawModeToggles::new(false);
    let ok = raw_mode_session(&mut t, false);
    assert!(!ok);
    assert!(!t.raw);
    assert_eq!(t.enables, 1);
    assert_eq!(t.disables, 1);
}

#[test]
fn raw_mode_already_on_is_left_untouched() {
    let mut t = RawModeToggles::new(true);
    raw_mode_session(&mut t, true);
    assert!(t.raw);
    assert_eq!(t.enables, 0);
    assert_eq!(t.disables, 0);
}

#[test]
fn toggle_counts_balance_over_repeated_sessions() {
    let mut t = RawModeToggles::new(false);
    raw_mode_session(&mut t, true);
    raw_mode_session(&mut t, false);
    raw_mode_session(&mut t, true);
    assert!(!t.raw);
    assert_eq!(t.enables, t.disables);
}
