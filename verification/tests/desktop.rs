use harper_desktop::cli::{run, Command, RunMode};
use harper_desktop::status_icon::{
    draw_status_line, menu_bar_icon, service_status_color, IconImage,
};
use harper_desktop::tray::{
    handle_desktop_event, service_menu_text, tray_menu, tray_setup, update_service_tray_state,
    DesktopAction, DesktopEvent, MenuEntry,
};
use harper_desktop::windows::{
    should_hide_window_on_close, show_editor_window, show_settings_window, WindowPlan, WindowSize,
};

#[test]
fn the_command_line_chooses_the_mode() {
    assert_eq!(run(Some(Command::Highlighter)), RunMode::Highlighter);
    assert_eq!(run(None), RunMode::Tauri);
}

#[test]
fn colors_of_the_states() {
    assert_eq!(service_status_color(true), [34, 197, 94, 255]);
    assert_eq!(service_status_color(false), [239, 68, 68, 255]);
}

fn reference_line(rgba: &mut [u8], width: u32, height: u32, color: [u8; 4]) {
    let line_height = (height.min(width) / 14).max(3);
    let start_y = height.saturating_sub(line_height);
    for y in start_y..height {
        for x in 0..width {
            let index = ((y * width + x) * 4) as usize;
            rgba[index..index + 4].copy_from_slice(&color);
        }
    }
}

#[test]
fn status_lines_cover_the_lower_rows() {
    for (width, height) in [(0, 0), (0, 5), (5, 0), (1, 1), (2, 3), (4, 7), (44, 44), (60, 90)] {
        let len = (width * height * 4) as usize + 8;
        let blank: Vec<u8> = (0..len).map(|i| i as u8).collect();
        let mut drawn = blank.clone();
        let mut expected = blank.clone();
        draw_status_line(&mut drawn, width, height, [1, 2, 3, 4]);
        reference_line(&mut expected, width, height, [1, 2, 3, 4]);
        assert_eq!(drawn, expected);
        assert_eq!(drawn.len(), len);
    }
}

#[test]
fn a_wide_picture_has_a_line_of_three_rows() {
    let mut rgba = vec![0u8; 4 * 2 * 5];
    draw_status_line(&mut rgba, 2, 5, [9, 8, 7, 6]);
    assert_eq!(&rgba[..16], &[0u8; 16]);
    assert_eq!(&rgba[16..], [9, 8, 7, 6].repeat(6).as_slice());
}

fn icon() -> IconImage {
    IconImage { rgba: vec![5; 4 * 4 * 4], width: 4, height: 4 }
}

#[test]
fn icons_tell_the_states_apart() {
    let on = menu_bar_icon(icon(), true);
    let off = menu_bar_icon(icon(), false);
    assert_eq!((on.width, on.height), (4, 4));
    assert_eq!(&on.rgba[..16], &[5u8; 16]);
    assert_eq!(&on.rgba[16..20], &[34, 197, 94, 255]);
    assert_eq!(&off.rgba[60..], &[239, 68, 68, 255]);
}

#[test]
fn repainting_an_icon_forgets_the_state_before() {
    let again = menu_bar_icon(menu_bar_icon(icon(), false), true);
    assert_eq!(again, menu_bar_icon(icon(), true));
}

fn item(entry: &MenuEntry) -> Option<(&'static str, &'static str, bool)> {
    match entry {
        MenuEntry::Item { id, text, enabled } => Some((id, text, *enabled)),
        MenuEntry::Separator => None,
    }
}

#[test]
fn menu_entries() {
    let entries = tray_menu(true);
    let expected = [
        Some(("toggle-service", "Stop Harper Service", true)),
        Some(("open-editor", "Open Editor", true)),
        None,
        Some(("settings", "Settings", true)),
        Some(("quit", "Quit", true)),
    ];
    assert_eq!(entries.iter().map(item).collect::<Vec<_>>(), expected);
    assert_eq!(
        item(&tray_menu(false)[0]),
        Some(("toggle-service", "Start Harper Service", true))
    );
}

#[test]
fn menu_bar_setup() {
    let setup = tray_setup(false);
    assert_eq!(setup.id, "harper-menu-bar");
    assert_eq!(setup.tooltip, "Harper Desktop");
    assert!(!setup.menu_on_left_click);
    assert!(!setup.icon);
    assert_eq!(setup.menu.len(), 5);
    assert_eq!(service_menu_text(true), "Stop Harper Service");
}

#[test]
fn menu_bar_updates() {
    let update = update_service_tray_state(true, true);
    assert_eq!(update.text, "Stop Harper Service");
    assert_eq!(update.icon, Some(true));
    let update = update_service_tray_state(false, false);
    assert_eq!(update.text, "Start Harper Service");
    assert_eq!(update.icon, None);
}

fn chosen(id: &str) -> DesktopAction<String> {
    handle_desktop_event(DesktopEvent::MenuItem(id))
}

#[test]
fn menu_items_act() {
    assert!(matches!(chosen("toggle-service"), DesktopAction::ToggleService));
    assert!(matches!(chosen("open-editor"), DesktopAction::ShowEditor));
    assert!(matches!(chosen("settings"), DesktopAction::ShowSettings));
    assert!(matches!(chosen("quit"), DesktopAction::Exit(0)));
    assert!(matches!(chosen("Quit"), DesktopAction::Nothing));
    assert!(matches!(chosen(""), DesktopAction::Nothing));
}

#[test]
fn clicks_and_closing() {
    let handle = |event: DesktopEvent<'static, String>| handle_desktop_event(event);
    assert!(matches!(
        handle(DesktopEvent::IconClicked { left: true }),
        DesktopAction::ShowSettings
    ));
    assert!(matches!(handle(DesktopEvent::IconClicked { left: false }), DesktopAction::Nothing));
    assert!(matches!(
        handle(DesktopEvent::CloseRequested { label: "main" }),
        DesktopAction::HideWindow
    ));
    assert!(matches!(
        handle(DesktopEvent::CloseRequested { label: "settings" }),
        DesktopAction::HideWindow
    ));
    assert!(matches!(
        handle(DesktopEvent::CloseRequested { label: "about" }),
        DesktopAction::Nothing
    ));
}

#[test]
fn the_menu_bar_follows_a_toggle() {
    let handle = |event: DesktopEvent<'static, String>| handle_desktop_event(event);
    assert!(matches!(handle(DesktopEvent::Toggled(Ok(true))), DesktopAction::UpdateTray(true)));
    match handle(DesktopEvent::Toggled(Err("no process".to_string()))) {
        DesktopAction::LogAndReadStatus(error) => assert_eq!(error, "no process"),
        _ => panic!("the status has to be read after a failure"),
    }
    assert!(matches!(handle(DesktopEvent::StatusRead(false)), DesktopAction::UpdateTray(false)));
}

#[test]
fn windows_are_shown_or_made() {
    assert!(matches!(show_editor_window(true), WindowPlan::ShowAndFocus));
    assert!(matches!(show_settings_window(true), WindowPlan::ShowAndFocus));
    match show_editor_window(false) {
        WindowPlan::Create(spec) => {
            assert_eq!((spec.label, spec.page, spec.title), ("main", "index.html", "harper-desktop"));
            assert_eq!(spec.size, WindowSize { width: 800, height: 600 });
            assert_eq!(spec.min_size, None);
            assert!(!spec.centered && spec.focused);
        }
        WindowPlan::ShowAndFocus => panic!("there is no window to show"),
    }
    match show_settings_window(false) {
        WindowPlan::Create(spec) => {
            assert_eq!(
                (spec.label, spec.page, spec.title),
                ("settings", "index.html", "Harper Settings")
            );
            assert_eq!(spec.size, WindowSize { width: 920, height: 680 });
            assert_eq!(spec.min_size, Some(WindowSize { width: 780, height: 520 }));
            assert!(spec.centered && !spec.focused);
        }
        WindowPlan::ShowAndFocus => panic!("there is no window to show"),
    }
}

#[test]
fn only_the_known_windows_are_hidden() {
    assert!(should_hide_window_on_close("main"));
    assert!(should_hide_window_on_close("settings"));
    assert!(!should_hide_window_on_close("Main"));
    assert!(!should_hide_window_on_close(""));
}
