//! The menu bar: its menu, and what choosing an item or clicking the icon leads to.
use vstd::prelude::*;

use crate::text::same_text;
use crate::windows::should_hide_window_on_close;
#[allow(unused_imports)]
use crate::windows::{EDITOR_WINDOW_LABEL, SETTINGS_WINDOW_LABEL};

verus! {

/// The identifier of the menu bar icon.
pub const TRAY_MENU_BAR_ID: &'static str = "harper-menu-bar";

/// The identifiers of the menu items.
pub const TOGGLE_SERVICE_MENU_ID: &'static str = "toggle-service";

pub const OPEN_EDITOR_MENU_ID: &'static str = "open-editor";

pub const SETTINGS_MENU_ID: &'static str = "settings";

pub const QUIT_MENU_ID: &'static str = "quit";

/// An entry of the menu.
pub enum MenuEntry {
    Item { id: &'static str, text: &'static str, enabled: bool },
    Separator,
}

/// Whether an entry is an enabled item with this identifier and text.
pub open spec fn is_item(entry: MenuEntry, id: Seq<char>, text: Seq<char>) -> bool {
    entry matches MenuEntry::Item { id: i, text: t, enabled } && i@ == id && t@ == text && enabled
}

/// The text of the item that starts and stops the service.
pub open spec fn toggle_text(is_running: bool) -> Seq<char> {
    if is_running {
        "Stop Harper Service"@
    } else {
        "Start Harper Service"@
    }
}

/// The text of the item that starts and stops the service: it names what the item would do.
pub fn service_menu_text(is_running: bool) -> (text: &'static str)
    ensures
        text@ == toggle_text(is_running),
{
    match is_running {
        true => "Stop Harper Service",
        false => "Start Harper Service",
    }
}

/// Whether these are the entries of the menu, from top to bottom.
pub open spec fn is_tray_menu(entries: Seq<MenuEntry>, is_running: bool) -> bool {
    &&& entries.len() == 5
    &&& is_item(entries[0], TOGGLE_SERVICE_MENU_ID@, toggle_text(is_running))
    &&& is_item(entries[1], OPEN_EDITOR_MENU_ID@, "Open Editor"@)
    &&& entries[2] is Separator
    &&& is_item(entries[3], SETTINGS_MENU_ID@, "Settings"@)
    &&& is_item(entries[4], QUIT_MENU_ID@, "Quit"@)
}

/// The entries of the menu, from top to bottom.
pub fn tray_menu(is_running: bool) -> (entries: Vec<MenuEntry>)
    ensures
        is_tray_menu(entries@, is_running),
{
    vec![
        MenuEntry::Item {
            id: TOGGLE_SERVICE_MENU_ID,
            text: service_menu_text(is_running),
            enabled: true,
        },
        MenuEntry::Item { id: OPEN_EDITOR_MENU_ID, text: "Open Editor", enabled: true },
        MenuEntry::Separator,
        MenuEntry::Item { id: SETTINGS_MENU_ID, text: "Settings", enabled: true },
        MenuEntry::Item { id: QUIT_MENU_ID, text: "Quit", enabled: true },
    ]
}

/// What the menu bar icon is made like.
pub struct TraySetup {
    pub id: &'static str,
    pub tooltip: &'static str,
    pub menu: Vec<MenuEntry>,
    /// The state of the service that the icon shows.
    pub icon: bool,
    /// Whether a click with the left button opens the menu.
    pub menu_on_left_click: bool,
}

/// What the menu bar icon is made like. A click with the left button is kept for the settings.
pub fn tray_setup(is_running: bool) -> (setup: TraySetup)
    ensures
        setup.id@ == TRAY_MENU_BAR_ID@,
        setup.tooltip@ == "Harper Desktop"@,
        is_tray_menu(setup.menu@, is_running),
        setup.icon == is_running,
        !setup.menu_on_left_click,
{
    TraySetup {
        id: TRAY_MENU_BAR_ID,
        tooltip: "Harper Desktop",
        menu: tray_menu(is_running),
        icon: is_running,
        menu_on_left_click: false,
    }
}

/// How the menu bar is brought up to date with the service.
pub struct TrayUpdate {
    /// The text for the item that starts and stops the service.
    pub text: &'static str,
    /// The state that the icon is to show, where the menu bar has the icon.
    pub icon: Option<bool>,
}

/// How the menu bar shows that the service is running or not. The text is set in any case, the
/// icon only where it is there.
pub fn update_service_tray_state(is_running: bool, has_icon: bool) -> (update: TrayUpdate)
    ensures
        update.text@ == toggle_text(is_running),
        update.icon == (if has_icon { Some(is_running) } else { None::<bool> }),
{
    let icon: Option<bool> = if has_icon { Some(is_running) } else { None };
    TrayUpdate { text: service_menu_text(is_running), icon }
}

/// What happens in the desktop application. `E` is the failure of a toggle.
pub enum DesktopEvent<'a, E> {
    /// A menu item was chosen.
    MenuItem(&'a str),
    /// The icon was clicked, with the left button or another one.
    IconClicked { left: bool },
    /// A window was asked to close.
    CloseRequested { label: &'a str },
    /// The service was toggled: whether it is running now, or why it could not be.
    Toggled(Result<bool, E>),
    /// The service was asked whether it is running.
    StatusRead(bool),
}

/// What is to be done in the desktop application.
pub enum DesktopAction<E> {
    /// Toggle the service, and hand back the outcome.
    ToggleService,
    /// Log the failure, ask the service whether it is running, and hand back the answer.
    LogAndReadStatus(E),
    /// Bring the menu bar up to date with the service.
    UpdateTray(bool),
    ShowEditor,
    ShowSettings,
    /// Keep the window from closing, and hide it.
    HideWindow,
    /// End the application with this code.
    Exit(i32),
    Nothing,
}

/// What a menu item leads to.
pub open spec fn menu_action<E>(id: Seq<char>) -> DesktopAction<E> {
    if id == TOGGLE_SERVICE_MENU_ID@ {
        DesktopAction::ToggleService
    } else if id == OPEN_EDITOR_MENU_ID@ {
        DesktopAction::ShowEditor
    } else if id == SETTINGS_MENU_ID@ {
        DesktopAction::ShowSettings
    } else if id == QUIT_MENU_ID@ {
        DesktopAction::Exit(0)
    } else {
        DesktopAction::Nothing
    }
}

/// What an event leads to.
pub open spec fn desktop_action<E>(event: DesktopEvent<E>) -> DesktopAction<E> {
    match event {
        DesktopEvent::MenuItem(id) => menu_action(id@),
        DesktopEvent::IconClicked { left } => if left { DesktopAction::ShowSettings } else {
            DesktopAction::Nothing
        },
        DesktopEvent::CloseRequested { label } => if label@ == EDITOR_WINDOW_LABEL@ || label@
            == SETTINGS_WINDOW_LABEL@ {
            DesktopAction::HideWindow
        } else {
            DesktopAction::Nothing
        },
        DesktopEvent::Toggled(Ok(is_running)) => DesktopAction::UpdateTray(is_running),
        DesktopEvent::Toggled(Err(error)) => DesktopAction::LogAndReadStatus(error),
        DesktopEvent::StatusRead(is_running) => DesktopAction::UpdateTray(is_running),
    }
}

/// Decides what an event in the desktop application leads to.
pub fn handle_desktop_event<E>(event: DesktopEvent<E>) -> (action: DesktopAction<E>)
    ensures
        action == desktop_action(event),
{
    match event {
        DesktopEvent::MenuItem(id) => {
            if same_text(id, TOGGLE_SERVICE_MENU_ID) {
                DesktopAction::ToggleService
            } else if same_text(id, OPEN_EDITOR_MENU_ID) {
                DesktopAction::ShowEditor
            } else if same_text(id, SETTINGS_MENU_ID) {
                DesktopAction::ShowSettings
            } else if same_text(id, QUIT_MENU_ID) {
                DesktopAction::Exit(0)
            } else {
                DesktopAction::Nothing
            }
        },
        DesktopEvent::IconClicked { left } => {
            if left {
                DesktopAction::ShowSettings
            } else {
                DesktopAction::Nothing
            }
        },
        DesktopEvent::CloseRequested { label } => {
            if should_hide_window_on_close(label) {
                DesktopAction::HideWindow
            } else {
                DesktopAction::Nothing
            }
        },
        DesktopEvent::Toggled(outcome) => match outcome {
            Ok(is_running) => DesktopAction::UpdateTray(is_running),
            Err(error) => DesktopAction::LogAndReadStatus(error),
        },
        DesktopEvent::StatusRead(is_running) => DesktopAction::UpdateTray(is_running),
    }
}

/// Every item of the menu does something, and no two of them do the same: the identifiers are
/// different from each other.
pub proof fn law_menu_items_act<E>()
    ensures
        menu_action::<E>(TOGGLE_SERVICE_MENU_ID@) is ToggleService,
        menu_action::<E>(OPEN_EDITOR_MENU_ID@) is ShowEditor,
        menu_action::<E>(SETTINGS_MENU_ID@) is ShowSettings,
        menu_action::<E>(QUIT_MENU_ID@) == DesktopAction::<E>::Exit(0),
{
    reveal_strlit("toggle-service");
    reveal_strlit("open-editor");
    reveal_strlit("settings");
    reveal_strlit("quit");
    assert(TOGGLE_SERVICE_MENU_ID@.len() == 14);
    assert(OPEN_EDITOR_MENU_ID@.len() == 11);
    assert(SETTINGS_MENU_ID@.len() == 8);
    assert(QUIT_MENU_ID@.len() == 4);
}

/// However a toggle ends, the menu bar comes to show the state that the service is in: the one
/// that the toggle answers with, or, where it failed, the one that the service is asked for.
pub proof fn law_tray_shows_the_service<E>(outcome: Result<bool, E>, is_running: bool)
    requires
        outcome matches Ok(answer) ==> answer == is_running,
    ensures
        match desktop_action(DesktopEvent::Toggled(outcome)) {
            DesktopAction::UpdateTray(shown) => shown == is_running,
            DesktopAction::LogAndReadStatus(_) => desktop_action(
                DesktopEvent::<E>::StatusRead(is_running),
            ) == DesktopAction::<E>::UpdateTray(is_running),
            _ => false,
        },
{
}

/// The identifiers by which the menu bar icon and the menu items are known.
pub proof fn law_menu_identifiers()
    ensures
        TRAY_MENU_BAR_ID@ == "harper-menu-bar"@,
        TOGGLE_SERVICE_MENU_ID@ == "toggle-service"@,
        OPEN_EDITOR_MENU_ID@ == "open-editor"@,
        SETTINGS_MENU_ID@ == "settings"@,
        QUIT_MENU_ID@ == "quit"@,
{
}

/// The menu has five entries: the item that names what it would do to the service, the editor, a
/// separator, the settings, and the end; every item can be chosen.
pub proof fn law_entries_of_the_menu(entries: Seq<MenuEntry>, is_running: bool)
    requires
        is_tray_menu(entries, is_running),
    ensures
        entries.len() == 5,
        entries[2] is Separator,
        entries[0] matches MenuEntry::Item { id, text, enabled } && id@ == "toggle-service"@
            && enabled && (is_running ==> text@ == "Stop Harper Service"@) && (!is_running ==> text@
            == "Start Harper Service"@),
        entries[1] matches MenuEntry::Item { id, text, enabled } && id@ == "open-editor"@ && text@
            == "Open Editor"@ && enabled,
        entries[3] matches MenuEntry::Item { id, text, enabled } && id@ == "settings"@ && text@
            == "Settings"@ && enabled,
        entries[4] matches MenuEntry::Item { id, text, enabled } && id@ == "quit"@ && text@
            == "Quit"@ && enabled,
        toggle_text(true) == "Stop Harper Service"@,
        toggle_text(false) == "Start Harper Service"@,
{
}

/// Which menu item leads to what: each identifier to its own action, and any other text to
/// nothing.
pub proof fn law_what_menu_items_lead_to<E>(id: Seq<char>)
    ensures
        menu_action::<E>(id) is ToggleService <==> id == "toggle-service"@,
        menu_action::<E>(id) is ShowEditor <==> id == "open-editor"@,
        menu_action::<E>(id) is ShowSettings <==> id == "settings"@,
        menu_action::<E>(id) is Exit <==> id == "quit"@,
        menu_action::<E>(id) matches DesktopAction::Exit(code) ==> code == 0,
        menu_action::<E>(id) is Nothing <==> id != "toggle-service"@ && id != "open-editor"@ && id
            != "settings"@ && id != "quit"@,
{
    reveal_strlit("toggle-service");
    reveal_strlit("open-editor");
    reveal_strlit("settings");
    reveal_strlit("quit");
    assert("toggle-service"@.len() == 14);
    assert("open-editor"@.len() == 11);
    assert("settings"@.len() == 8);
    assert("quit"@.len() == 4);
}

/// What every other event leads to: a left click to the settings and any other click to nothing;
/// closing one of the two windows to hiding it and closing any other to nothing; a toggle to the
/// state that it answers with, or, where it failed, to the failure being logged and the state
/// being asked for; and a state to being shown.
pub proof fn law_what_events_lead_to<E>(id: &str, left: bool, running: bool, error: E)
    ensures
        desktop_action::<E>(DesktopEvent::MenuItem(id)) == menu_action::<E>(id@),
        left ==> desktop_action::<E>(DesktopEvent::IconClicked { left }) is ShowSettings,
        !left ==> desktop_action::<E>(DesktopEvent::IconClicked { left }) is Nothing,
        id@ == "main"@ || id@ == "settings"@ ==> desktop_action::<E>(
            DesktopEvent::CloseRequested { label: id },
        ) is HideWindow,
        id@ != "main"@ && id@ != "settings"@ ==> desktop_action::<E>(
            DesktopEvent::CloseRequested { label: id },
        ) is Nothing,
        desktop_action::<E>(DesktopEvent::Toggled(Ok(running))) == DesktopAction::<E>::UpdateTray(
            running,
        ),
        desktop_action::<E>(DesktopEvent::Toggled(Err(error))) == DesktopAction::<
            E,
        >::LogAndReadStatus(error),
        desktop_action::<E>(DesktopEvent::StatusRead(running)) == DesktopAction::<E>::UpdateTray(
            running,
        ),
{
}

} // verus!
