use dict_core::monitor::{
    clamp_interval_ms, get_clipboard_monitor_state, update_clipboard_monitor, ClipboardMonitorState,
    DEFAULT_INTERVAL_MS, MAX_INTERVAL_MS, MIN_INTERVAL_MS,
};

#[test]
fn new_monitor_is_off_with_default_interval() {
    let s = ClipboardMonitorState::new();
    assert!(!s.enabled);
    assert_eq!(s.interval_ms, 1000);
    assert_eq!(s.interval_ms, DEFAULT_INTERVAL_MS);
    assert_eq!(s.last_copy_time, None);
    assert!(!s.ctrl_pressed);
}

#[test]
fn update_clamps_interval() {
    let mut s = ClipboardMonitorState::new();
    update_clipboard_monitor(&mut s, true, 50);
    assert!(s.enabled);
    assert_eq!(s.interval_ms, 200);
    update_clipboard_monitor(&mut s, true, 99_999);
    assert_eq!(s.interval_ms, 5000);
    update_clipboard_monitor(&mut s, false, 750);
    assert!(!s.enabled);
    assert_eq!(s.interval_ms, 750);
    update_clipboard_monitor(&mut s, true, 0);
    assert_eq!(s.interval_ms, MIN_INTERVAL_MS);
    update_clipboard_monitor(&mut s, true, u64::MAX);
    assert_eq!(s.interval_ms, MAX_INTERVAL_MS);
}

#[test]
fn bounds_are_kept() {
    assert_eq!(clamp_interval_ms(200), 200);
    assert_eq!(clamp_interval_ms(5000), 5000);
    assert_eq!(clamp_interval_ms(199), 200);
    assert_eq!(clamp_interval_ms(5001), 5000);
}

#[test]
fn clamping_twice_is_clamping_once() {
    for ms in [0u64, 1, 199, 200, 201, 1000, 4999, 5000, 5001, 123_456, u64::MAX] {
        let once = clamp_interval_ms(ms);
        assert_eq!(clamp_interval_ms(once), once);
        assert!(once >= MIN_INTERVAL_MS && once <= MAX_INTERVAL_MS);
    }
}

#[test]
fn update_keeps_copy_state() {
    let mut s = ClipboardMonitorState::new();
    s.last_copy_time = Some(42);
    s.ctrl_pressed = true;
    update_clipboard_monitor(&mut s, true, 300);
    assert_eq!(s.last_copy_time, Some(42));
    assert!(s.ctrl_pressed);
}

#[test]
fn config_reports_state() {
    let mut s = ClipboardMonitorState::new();
    let c = get_clipboard_monitor_state(&s);
    assert!(!c.enabled);
    assert_eq!(c.interval_ms, 1000);
    update_clipboard_monitor(&mut s, true, 2500);
    let c = get_clipboard_monitor_state(&s);
    assert!(c.enabled);
    assert_eq!(c.interval_ms, 2500);
}
