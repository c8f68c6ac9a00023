use dict_core::window::{menu_action, tray_click_action, window_command_result, MenuAction, TrayAction};

#[test]
fn window_found_or_not() {
    assert_eq!(window_command_result(true), Ok(()));
    assert_eq!(window_command_result(false), Err("窗口未找到".to_string()));
}

#[test]
fn menu_entries() {
    assert_eq!(menu_action("show"), MenuAction::ShowWindow);
    assert_eq!(menu_action("quit"), MenuAction::Quit);
    assert_eq!(menu_action("Show"), MenuAction::Ignore);
    assert_eq!(menu_action(""), MenuAction::Ignore);
    assert_eq!(menu_action("quit "), MenuAction::Ignore);
}

#[test]
fn tray_click_toggles_on_left_release() {
    assert_eq!(tray_click_action(true, true, true), TrayAction::Hide);
    assert_eq!(tray_click_action(true, true, false), TrayAction::Show);
    assert_eq!(tray_click_action(true, false, true), TrayAction::Nothing);
    assert_eq!(tray_click_action(false, true, false), TrayAction::Nothing);
}
