//! The windows of the application: what each is made like, and what closing one does.
use vstd::prelude::*;

use crate::text::same_text;

verus! {

/// The label of the editor window.
pub const EDITOR_WINDOW_LABEL: &'static str = "main";

/// The label of the settings window.
pub const SETTINGS_WINDOW_LABEL: &'static str = "settings";

/// A width and a height, in logical pixels.
#[derive(Debug, Clone, Copy, PartialEq, Eq, Structural)]
pub struct WindowSize {
    pub width: u32,
    pub height: u32,
}

/// What a window is made like.
pub struct WindowSpec {
    pub label: &'static str,
    /// The page that the window shows.
    pub page: &'static str,
    pub title: &'static str,
    pub size: WindowSize,
    pub min_size: Option<WindowSize>,
    /// Whether the window opens in the middle of the screen.
    pub centered: bool,
    /// Whether the window is given the focus once it is made.
    pub focused: bool,
}

/// How a window is brought up.
pub enum WindowPlan {
    /// The window is there: show it, then give it the focus.
    ShowAndFocus,
    /// The window is to be made.
    Create(WindowSpec),
}

/// How the editor window is brought up, where `exists` tells whether it is there.
pub fn show_editor_window(exists: bool) -> (plan: WindowPlan)
    ensures
        exists <==> plan is ShowAndFocus,
        plan matches WindowPlan::Create(spec) ==> {
            &&& spec.label@ == EDITOR_WINDOW_LABEL@
            &&& spec.page@ == "index.html"@
            &&& spec.title@ == "harper-desktop"@
            &&& spec.size == (WindowSize { width: 800, height: 600 })
            &&& spec.min_size is None
            &&& !spec.centered
            &&& spec.focused
        },
{
    if exists {
        return WindowPlan::ShowAndFocus;
    }
    WindowPlan::Create(
        WindowSpec {
            label: EDITOR_WINDOW_LABEL,
            page: "index.html",
            title: "harper-desktop",
            size: WindowSize { width: 800, height: 600 },
            min_size: None,
            centered: false,
            focused: true,
        },
    )
}

/// How the settings window is brought up, where `exists` tells whether it is there.
pub fn show_settings_window(exists: bool) -> (plan: WindowPlan)
    ensures
        exists <==> plan is ShowAndFocus,
        plan matches WindowPlan::Create(spec) ==> {
            &&& spec.label@ == SETTINGS_WINDOW_LABEL@
            &&& spec.page@ == "index.html"@
            &&& spec.title@ == "Harper Settings"@
            &&& spec.size == (WindowSize { width: 920, height: 680 })
            &&& spec.min_size == Some(WindowSize { width: 780, height: 520 })
            &&& spec.centered
            &&& !spec.focused
        },
{
    if exists {
        return WindowPlan::ShowAndFocus;
    }
    WindowPlan::Create(
        WindowSpec {
            label: SETTINGS_WINDOW_LABEL,
            page: "index.html",
            title: "Harper Settings",
            size: WindowSize { width: 920, height: 680 },
            min_size: Some(WindowSize { width: 780, height: 520 }),
            centered: true,
            focused: false,
        },
    )
}

/// Whether closing a window only hides it.
pub fn should_hide_window_on_close(label: &str) -> (hide: bool)
    ensures
        hide <==> label@ == EDITOR_WINDOW_LABEL@ || label@ == SETTINGS_WINDOW_LABEL@,
{
    same_text(label, EDITOR_WINDOW_LABEL) || same_text(label, SETTINGS_WINDOW_LABEL)
}

/// The labels by which the two windows are known.
pub proof fn law_window_labels()
    ensures
        EDITOR_WINDOW_LABEL@ == "main"@,
        SETTINGS_WINDOW_LABEL@ == "settings"@,
{
}

} // verus!
