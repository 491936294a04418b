use rayshot::registry::RayshotState;

#[test]
fn navigation_on_empty_registry_stays_at_zero() {
    let mut s = RayshotState::new();
    assert_eq!(s.try_increment_screenshot_index(), 0);
    assert_eq!(s.try_decrement_screenshot_index(), 0);
    assert_eq!(s.current_index(), 0);
    assert!(s.get_current_screenshot().is_none());
}

#[test]
fn navigation_stays_within_bounds() {
    let mut s = RayshotState::new();
    s.register_capture("a.png".to_string());
    s.register_capture("b.png".to_string());
    s.register_capture("c.png".to_string());
    // Advance clamps at the last valid index.
    assert_eq!(s.try_increment_screenshot_index(), 1);
    assert_eq!(s.try_increment_screenshot_index(), 2);
    assert_eq!(s.try_increment_screenshot_index(), 2);
    // Retreat clamps at 0.
    assert_eq!(s.try_decrement_screenshot_index(), 1);
    assert_eq!(s.try_decrement_screenshot_index(), 0);
    assert_eq!(s.try_decrement_screenshot_index(), 0);
    let n = s.list_entries().len();
    assert!(s.current_index() < n);
}

#[test]
fn append_does_not_move_cursor() {
    let mut s = RayshotState::new();
    s.register_capture("a.png".to_string());
    s.try_increment_screenshot_index();
    assert_eq!(s.current_index(), 0);
    s.register_capture("b.png".to_string());
    s.register_capture("c.png".to_string());
    assert_eq!(s.current_index(), 0);
}

#[test]
fn jump_to_focuses_entry() {
    let mut s = RayshotState::new();
    s.register_capture("a.png".to_string());
    s.register_capture("b.png".to_string());
    s.jump_to(1);
    assert_eq!(s.current_index(), 1);
    let cur = s.get_current_screenshot().unwrap();
    assert_eq!(cur.filename, "b.png");
}

#[test]
fn get_current_returns_entry_under_cursor() {
    let mut s = RayshotState::new();
    s.register_capture("a.png".to_string());
    s.register_capture("b.png".to_string());
    let cur = s.get_current_screenshot().unwrap();
    assert_eq!(cur.filename, "a.png");
    s.try_increment_screenshot_index();
    let cur = s.get_current_screenshot().unwrap();
    assert_eq!(cur.filename, "b.png");
}

#[test]
fn error_log_snapshot_and_clear() {
    let mut s = RayshotState::new();
    s.push_error("one".to_string());
    s.push_error("two".to_string());
    assert_eq!(s.error_log(), vec!["one".to_string(), "two".to_string()]);
    s.clear_errors();
    assert!(s.error_log().is_empty());
}
