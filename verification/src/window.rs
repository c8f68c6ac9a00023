//! Decisions about the main window: answers of the window commands and what
//! the tray icon and its menu do.
use vstd::prelude::*;
use crate::text::text_equals;

verus! {

/// Message of a window command when the main window does not exist.
pub open spec fn window_not_found_message() -> Seq<char> {
    "窗口未找到"@
}

/// The answer of a command on the main window (open the developer tools,
/// show, hide): success where the window was found, otherwise an error
/// saying it was not.
pub fn window_command_result(found: bool) -> (r: Result<(), String>)
    ensures
        found ==> r is Ok,
        !found ==> (r matches Err(m) && m@ == window_not_found_message()),
{
    if found {
        Ok(())
    } else {
        Err(String::from_str("窗口未找到"))
    }
}

/// What a tray menu entry does.
#[derive(PartialEq, Eq, Structural, Clone, Copy, Debug)]
pub enum MenuAction {
    /// Show the main window and give it the focus.
    ShowWindow,
    /// Leave the application.
    Quit,
    /// Nothing.
    Ignore,
}

/// Identifier of the tray menu entry that shows the window.
pub open spec fn show_menu_id() -> Seq<char> {
    "show"@
}

/// Identifier of the tray menu entry that quits.
pub open spec fn quit_menu_id() -> Seq<char> {
    "quit"@
}

/// The action of the tray menu entry with identifier `id`.
pub fn menu_action(id: &str) -> (a: MenuAction)
    ensures
        a == if id@ == show_menu_id() {
            MenuAction::ShowWindow
        } else if id@ == quit_menu_id() {
            MenuAction::Quit
        } else {
            MenuAction::Ignore
        },
{
    if text_equals(id, "show") {
        MenuAction::ShowWindow
    } else if text_equals(id, "quit") {
        MenuAction::Quit
    } else {
        MenuAction::Ignore
    }
}

/// What a click on the tray icon does to the main window.
#[derive(PartialEq, Eq, Structural, Clone, Copy, Debug)]
pub enum TrayAction {
    /// Hide the window.
    Hide,
    /// Show the window and give it the focus.
    Show,
    /// Nothing.
    Nothing,
}

/// A release of the left button on the tray icon toggles the window: a
/// visible window is hidden, a hidden one shown. Other clicks do nothing.
pub fn tray_click_action(left_button: bool, released: bool, visible: bool) -> (a: TrayAction)
    ensures
        a == if left_button && released {
            if visible {
                TrayAction::Hide
            } else {
                TrayAction::Show
            }
        } else {
            TrayAction::Nothing
        },
{
    if left_button && released {
        if visible {
            TrayAction::Hide
        } else {
            TrayAction::Show
        }
    } else {
        TrayAction::Nothing
    }
}

} // verus!
