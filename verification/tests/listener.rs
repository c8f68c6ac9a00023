use dict_core::listener::{
    poll_delay_ms, KeyListener, ListenerAction, ACTIVE_POLL_MS, IDLE_POLL_MS,
};

const MS: u64 = 1_000_000;

#[test]
fn double_press_within_interval_triggers() {
    let mut l = KeyListener::new();
    assert_eq!(l.step(true, true, true, 0, 1000), ListenerAction::Continue);
    assert_eq!(l.step(true, false, false, 100 * MS, 1000), ListenerAction::Continue);
    assert_eq!(l.step(true, true, true, 400 * MS, 1000), ListenerAction::Triggered);
    assert_eq!(l.last_copy_time, None);
    assert!(l.is_holding);
}

#[test]
fn interval_boundary_is_inclusive() {
    let mut l = KeyListener::new();
    l.step(true, true, true, 5 * MS, 1000);
    l.step(true, false, true, 6 * MS, 1000);
    assert_eq!(l.step(true, true, true, 1005 * MS, 1000), ListenerAction::Triggered);

    let mut l = KeyListener::new();
    l.step(true, true, true, 5 * MS, 1000);
    l.step(true, true, false, 6 * MS, 1000);
    assert_eq!(l.step(true, true, true, 1005 * MS + 1, 1000), ListenerAction::Continue);
    assert_eq!(l.last_copy_time, Some(1005 * MS + 1));
}

#[test]
fn slow_presses_restart_the_wait() {
    let mut l = KeyListener::new();
    l.step(true, true, true, 0, 500);
    l.step(true, false, false, 1, 500);
    assert_eq!(l.step(true, true, true, 900 * MS, 500), ListenerAction::Continue);
    l.step(true, false, false, 901 * MS, 500);
    assert_eq!(l.step(true, true, true, 1200 * MS, 500), ListenerAction::Triggered);
}

#[test]
fn holding_does_not_trigger() {
    let mut l = KeyListener::new();
    assert_eq!(l.step(true, true, true, 0, 1000), ListenerAction::Continue);
    for t in 1..20u64 {
        let before = l;
        assert_eq!(l.step(true, true, true, t * 10 * MS, 1000), ListenerAction::Continue);
        assert_eq!(l, before);
    }
}

#[test]
fn three_quick_presses_trigger_once() {
    let mut l = KeyListener::new();
    let mut triggers = 0;
    for k in 0..3u64 {
        if l.step(true, true, true, k * 100 * MS, 1000) == ListenerAction::Triggered {
            triggers += 1;
        }
        l.step(true, false, false, k * 100 * MS + 50 * MS, 1000);
    }
    assert_eq!(triggers, 1);
    // A fourth press pairs with the third.
    assert_eq!(l.step(true, true, true, 350 * MS, 1000), ListenerAction::Triggered);
}

#[test]
fn disabling_forgets_the_first_press() {
    let mut l = KeyListener::new();
    l.step(true, true, true, 0, 1000);
    assert_eq!(l.step(false, true, true, 10 * MS, 1000), ListenerAction::Disabled);
    assert_eq!(l, KeyListener::new());
    l.step(true, false, false, 20 * MS, 1000);
    assert_eq!(l.step(true, true, true, 30 * MS, 1000), ListenerAction::Continue);
}

#[test]
fn clock_going_back_counts_as_no_time() {
    let mut l = KeyListener::new();
    l.step(true, true, true, 10_000 * MS, 200);
    l.step(true, false, false, 10_001 * MS, 200);
    assert_eq!(l.step(true, true, true, 5 * MS, 200), ListenerAction::Triggered);
}

#[test]
fn only_ctrl_or_only_c_is_no_press() {
    let mut l = KeyListener::new();
    assert_eq!(l.step(true, true, false, 0, 1000), ListenerAction::Continue);
    assert_eq!(l.step(true, false, true, 1, 1000), ListenerAction::Continue);
    assert_eq!(l, KeyListener::new());
}

#[test]
fn poll_delays() {
    assert_eq!(poll_delay_ms(ListenerAction::Disabled), 100);
    assert_eq!(poll_delay_ms(ListenerAction::Continue), 50);
    assert_eq!(poll_delay_ms(ListenerAction::Triggered), ACTIVE_POLL_MS);
    assert_eq!(IDLE_POLL_MS, 100);
}

#[test]
fn huge_interval_does_not_overflow() {
    let mut l = KeyListener::new();
    l.step(true, true, true, 0, u64::MAX);
    l.step(true, false, false, 1, u64::MAX);
    assert_eq!(l.step(true, true, true, u64::MAX, u64::MAX), ListenerAction::Triggered);
}
