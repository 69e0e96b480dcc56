//! The tray icon's menu and what each of its entries, a click on the tray
//! icon, or a request to close the main window does to the main window.

use vstd::prelude::*;
use vstd::string::*;

verus! {

/// Identifier of the menu entry that shows or hides the main window.
pub const SHOW_ID: &'static str = "show";

/// Identifier of the menu entry that ends the application.
pub const QUIT_ID: &'static str = "quit";

/// Label of the menu entry that shows or hides the main window.
pub const SHOW_LABEL: &'static str = "Show/Hide";

/// Label of the menu entry that ends the application.
pub const QUIT_LABEL: &'static str = "Quit";

/// The identifier of the toggling entry, as characters.
pub open spec fn show_id() -> Seq<char> {
    SHOW_ID@
}

/// The identifier of the quitting entry, as characters.
pub open spec fn quit_id() -> Seq<char> {
    QUIT_ID@
}

/// What a tray menu entry asks for.
#[derive(Clone, Copy, Debug, PartialEq, Eq, Structural)]
pub enum MenuCommand {
    /// Destroy the main window (if there is one) and end the process.
    Quit,
    /// Hide the main window if it is visible, else show and focus it.
    ToggleWindow,
    /// An entry this application does not know: nothing happens.
    Ignore,
}

/// The command of the menu entry with identifier `id`.
pub open spec fn command_of(id: Seq<char>) -> MenuCommand {
    if id == quit_id() {
        MenuCommand::Quit
    } else if id == show_id() {
        MenuCommand::ToggleWindow
    } else {
        MenuCommand::Ignore
    }
}

/// One entry of the tray menu.
pub struct TrayMenuItem {
    pub id: String,
    pub label: String,
    pub enabled: bool,
}

/// The tray menu, top to bottom, as (identifier, label) pairs.
pub open spec fn tray_menu() -> Seq<(Seq<char>, Seq<char>)> {
    seq![(show_id(), SHOW_LABEL@), (quit_id(), QUIT_LABEL@)]
}

/// What is done to the main window when it is toggled.
#[derive(Clone, Copy, Debug, PartialEq, Eq, Structural)]
pub enum WindowAction {
    /// Hide the window (the application keeps running in the tray).
    Hide,
    /// Show the window and give it the focus.
    ShowAndFocus,
}

/// The toggle for a window whose visibility query answered `reported`
/// (`None` when the query failed): a window known to be visible is hidden,
/// any other is shown and focused.
pub open spec fn toggle(reported: Option<bool>) -> WindowAction {
    if reported == Some(true) { WindowAction::Hide } else { WindowAction::ShowAndFocus }
}

/// Whether the window is visible after `action`.
pub open spec fn visible_after(action: WindowAction) -> bool {
    action == WindowAction::ShowAndFocus
}

/// What happens when the user asks to close the main window.
#[derive(Clone, Copy, Debug, PartialEq, Eq, Structural)]
pub struct CloseReaction {
    /// Hide the window.
    pub hide: bool,
    /// Keep the window from being closed, so the application stays in the tray.
    pub prevent_close: bool,
}

/// What a tray event asks of the main window.
#[derive(Clone, Copy, Debug, PartialEq, Eq, Structural)]
pub enum TrayIconEventKind {
    /// The tray icon was clicked.
    Click,
    /// Any other event of the tray icon (pointer entering, moving, leaving, double click).
    Other,
}

/// The command of the menu entry with identifier `id`: `quit` ends the
/// application, `show` toggles the main window, anything else is ignored.
pub fn menu_command(id: &str) -> (command: MenuCommand)
    ensures
        command == command_of(id@),
{
    let given = String::from_str(id);
    if given == String::from_str(QUIT_ID) {
        MenuCommand::Quit
    } else if given == String::from_str(SHOW_ID) {
        MenuCommand::ToggleWindow
    } else {
        MenuCommand::Ignore
    }
}

/// The entries of the tray menu, top to bottom: "Show/Hide", then "Quit",
/// both enabled.
pub fn tray_menu_items() -> (items: Vec<TrayMenuItem>)
    ensures
        items.len() == tray_menu().len(),
        forall|i: int|
            0 <= i < items.len() ==> {
                &&& (#[trigger] items[i]).id@ == tray_menu()[i].0
                &&& items[i].label@ == tray_menu()[i].1
                &&& items[i].enabled
            },
{
    let mut items: Vec<TrayMenuItem> = Vec::new();
    items.push(
        TrayMenuItem {
            id: String::from_str(SHOW_ID),
            label: String::from_str(SHOW_LABEL),
            enabled: true,
        },
    );
    items.push(
        TrayMenuItem { id: String::from_str(QUIT_ID), label: String::from_str(QUIT_LABEL), enabled: true },
    );
    items
}

/// How the main window is toggled, given what its visibility query
/// answered (`None` when the query failed, which counts as hidden).
pub fn toggle_action(reported: Option<bool>) -> (action: WindowAction)
    ensures
        action == toggle(reported),
{
    match reported {
        Some(true) => WindowAction::Hide,
        _ => WindowAction::ShowAndFocus,
    }
}

/// Whether a tray icon event toggles the main window: only a click does.
pub fn tray_event_toggles(event: TrayIconEventKind) -> (toggles: bool)
    ensures
        toggles == (event == TrayIconEventKind::Click),
{
    match event {
        TrayIconEventKind::Click => true,
        TrayIconEventKind::Other => false,
    }
}

/// What a request to close the main window does: the window is hidden and
/// the close is prevented, so the application keeps running in the tray.
pub fn close_request_reaction() -> (reaction: CloseReaction)
    ensures
        reaction.hide,
        reaction.prevent_close,
{
    CloseReaction { hide: true, prevent_close: true }
}

/// Toggling the main window twice, with the visibility reported correctly
/// each time, leaves it as visible as it was.
pub proof fn toggle_twice_restores(visible: bool)
    ensures
        visible_after(toggle(Some(visible_after(toggle(Some(visible)))))) == visible,
{
}

/// After a toggle the main window is visible exactly when it was not
/// reported visible before.
pub proof fn toggle_flips_visibility(reported: Option<bool>)
    ensures
        visible_after(toggle(reported)) == (reported != Some(true)),
{
}

/// Every entry of the tray menu has a command: the first toggles the main
/// window, the last ends the application.
pub proof fn tray_menu_entries_have_commands()
    ensures
        forall|i: int|
            0 <= i < tray_menu().len() ==> command_of(#[trigger] tray_menu()[i].0)
                != MenuCommand::Ignore,
        command_of(tray_menu()[0].0) == MenuCommand::ToggleWindow,
        command_of(tray_menu()[tray_menu().len() - 1].0) == MenuCommand::Quit,
{
    reveal_strlit("show");
    reveal_strlit("quit");
    assert(show_id() != quit_id()) by {
        assert(show_id()[0] != quit_id()[0]);
    }
}

} // verus!
