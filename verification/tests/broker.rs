use harper_desktop::accessibility::{
    accessibility_permission_status, ax_element_attribute, element_rect_for_text_range,
    focused_window_pid, is_textarea, text_range, AccessibilityPermissionStatus, RangeAction,
    RangeEvent,
};
use harper_desktop::mac_broker::{
    is_pid_approved, settled_window_state, window_frame_changed, BoxesAction, BoxesEvent,
    FrameMatch, MacBroker, WINDOW_MOVEMENT_SETTLE_NANOS,
};
use harper_desktop::rect::Rect;
use harper_desktop::rect_collector::{PlacedLint, RectCollector, RuleLints};
use harper_desktop::window_list::{
    frontmost_window_frame_for_pid, window_bounds, window_pid, BoundsEntries, WindowInfo,
};

const SAME: FrameMatch = FrameMatch { x: true, y: true, width: true, height: true };
const MOVED: FrameMatch = FrameMatch { x: true, y: false, width: true, height: true };
const MS: u64 = 1_000_000;

fn rect(x: f64) -> Rect<f64> {
    Rect { x, y: 2.0, width: 300.0, height: 200.0 }
}

fn broker() -> MacBroker<Vec<String>, f64> {
    MacBroker::new(vec!["com.apple.Notes".to_string()])
}

#[test]
fn permission_follows_trust() {
    assert_eq!(accessibility_permission_status(true), AccessibilityPermissionStatus::Granted);
    assert_eq!(accessibility_permission_status(false), AccessibilityPermissionStatus::NotGranted);
}

#[test]
fn the_last_other_application_is_looked_at() {
    let mut broker = broker();
    assert_eq!(broker.target_pid(10, 10), None);
    assert_eq!(broker.target_pid(20, 10), Some(20));
    assert_eq!(broker.target_pid(10, 10), Some(20));
    assert_eq!(broker.target_pid(10, 10), Some(20));
    assert_eq!(broker.target_pid(30, 10), Some(30));
    assert_eq!(broker.last_focused, Some(30));
    assert_eq!(broker.integrations, ["com.apple.Notes"]);
}

#[test]
fn one_measure_is_enough_for_a_change() {
    assert!(!window_frame_changed(SAME));
    assert!(window_frame_changed(FrameMatch { x: false, ..SAME }));
    assert!(window_frame_changed(FrameMatch { y: false, ..SAME }));
    assert!(window_frame_changed(FrameMatch { width: false, ..SAME }));
    assert!(window_frame_changed(FrameMatch { height: false, ..SAME }));
}

#[test]
fn a_new_window_is_settled() {
    let mut broker = broker();
    let now = WINDOW_MOVEMENT_SETTLE_NANOS;
    assert!(!broker.window_is_moving(20, Some(rect(1.0)), SAME, now));
    assert!(!broker.window_is_moving(20, Some(rect(1.0)), SAME, now));
    assert!(!broker.window_is_moving(30, Some(rect(9.0)), MOVED, now + 1));
    assert_eq!(broker.remembered_frame(30), Some(&rect(9.0)));
    assert_eq!(broker.remembered_frame(20), None);
}

#[test]
fn a_clock_that_does_not_reach_back_delays_settling() {
    assert_eq!(settled_window_state(20, rect(1.0), 5).last_changed_at, 5);
    assert_eq!(settled_window_state(20, rect(1.0), 150 * MS).last_changed_at, 0);
    assert_eq!(settled_window_state(20, rect(1.0), 151 * MS).last_changed_at, MS);
    let mut broker = broker();
    assert!(!broker.window_is_moving(20, Some(rect(1.0)), SAME, 5));
    assert!(broker.window_is_moving(20, Some(rect(1.0)), SAME, 6));
    assert!(!broker.window_is_moving(20, Some(rect(1.0)), SAME, 150 * MS + 5));
}

#[test]
fn a_changed_window_settles_after_a_while() {
    let mut broker = broker();
    assert!(!broker.window_is_moving(20, Some(rect(1.0)), SAME, 1000 * MS));
    assert!(broker.window_is_moving(20, Some(rect(5.0)), MOVED, 1001 * MS));
    assert_eq!(broker.remembered_frame(20), Some(&rect(5.0)));
    assert!(broker.window_is_moving(20, Some(rect(5.0)), SAME, 1151 * MS - 1));
    assert!(!broker.window_is_moving(20, Some(rect(5.0)), SAME, 1151 * MS));
}

#[test]
fn small_movements_are_held_against_the_same_frame() {
    let mut broker = broker();
    broker.window_is_moving(20, Some(rect(1.0)), SAME, 1000 * MS);
    broker.window_is_moving(20, Some(rect(1.4)), SAME, 1001 * MS);
    assert_eq!(broker.remembered_frame(20), Some(&rect(1.0)));
}

#[test]
fn a_missing_window_is_forgotten() {
    let mut broker = broker();
    broker.window_is_moving(20, Some(rect(1.0)), SAME, 1000 * MS);
    assert!(broker.window_is_moving(20, None, SAME, 1001 * MS));
    assert_eq!(broker.remembered_frame(20), None);
}

#[test]
fn an_earlier_clock_counts_as_no_time() {
    let mut broker = broker();
    broker.window_is_moving(20, Some(rect(1.0)), SAME, 1000 * MS);
    broker.window_is_moving(20, Some(rect(5.0)), MOVED, 1001 * MS);
    assert!(broker.window_is_moving(20, Some(rect(5.0)), SAME, 0));
}

fn window(frame: Option<Rect<f64>>, frames: FrameMatch, now: u64) -> BoxesEvent<f64> {
    BoxesEvent::Window { pid: 20, frame, frames, now }
}

#[test]
fn boxes_are_collected_from_a_settled_window() {
    let mut broker = broker();
    let action = broker.get_boxes(BoxesEvent::Focus { focused: Some(20), own: 10 });
    assert_eq!(action, BoxesAction::CheckIntegration(20));
    let action = broker.get_boxes(BoxesEvent::Integration { pid: 20, enabled: Some(true) });
    assert_eq!(action, BoxesAction::FindWindow(20));
    let action = broker.get_boxes(window(Some(rect(1.0)), SAME, 1000 * MS));
    assert_eq!(action, BoxesAction::Collect(20));
    let action = broker.get_boxes(window(Some(rect(5.0)), MOVED, 1001 * MS));
    assert_eq!(action, BoxesAction::NoBoxes);
    assert!(broker.window_movement.is_some());
    let action = broker.get_boxes(window(None, SAME, 1002 * MS));
    assert_eq!(action, BoxesAction::NoBoxes);
    assert!(broker.window_movement.is_none());
}

#[test]
fn a_look_that_ends_early_forgets_the_window() {
    let events = [
        BoxesEvent::Focus { focused: None, own: 10 },
        BoxesEvent::Focus { focused: Some(10), own: 10 },
        BoxesEvent::Integration { pid: 20, enabled: Some(false) },
        BoxesEvent::Integration { pid: 20, enabled: None },
    ];
    for event in events {
        let mut broker = broker();
        broker.window_is_moving(20, Some(rect(1.0)), SAME, 1000 * MS);
        assert_eq!(broker.get_boxes(event), BoxesAction::NoBoxes);
        assert!(broker.window_movement.is_none());
    }
}

#[test]
fn unknown_applications_are_not_approved() {
    assert!(is_pid_approved(Some(true)));
    assert!(!is_pid_approved(Some(false)));
    assert!(!is_pid_approved(None));
}

fn info(pid: i64, layer: i64, visible: bool, x: Option<f64>) -> WindowInfo<f64> {
    WindowInfo {
        owner_pid: Some(pid),
        layer: Some(layer),
        visible,
        bounds: Some(BoundsEntries { x, y: Some(2.0), width: Some(300.0), height: Some(200.0) }),
    }
}

#[test]
fn the_first_fitting_window_is_in_front() {
    let windows = vec![
        info(30, 0, true, Some(0.0)),
        info(20, 25, true, Some(1.0)),
        info(20, 0, false, Some(2.0)),
        info(20, 0, true, None),
        WindowInfo { owner_pid: None, ..info(20, 0, true, Some(3.0)) },
        WindowInfo { layer: None, ..info(20, 0, true, Some(3.5)) },
        WindowInfo { bounds: None, ..info(20, 0, true, Some(3.7)) },
        info(20, 0, true, Some(4.0)),
        info(20, 0, true, Some(5.0)),
    ];
    assert_eq!(frontmost_window_frame_for_pid(&windows, 20), Some(rect(4.0)));
    assert_eq!(frontmost_window_frame_for_pid(&windows, 30), Some(rect(0.0)));
    assert_eq!(frontmost_window_frame_for_pid(&windows, 40), None);
}

#[test]
fn process_numbers_are_narrowed() {
    assert_eq!(window_pid(Some(20)), Some(20));
    assert_eq!(window_pid(Some(0x1_0000_0014)), Some(20));
    assert_eq!(window_pid(Some(-1)), Some(-1));
    assert_eq!(window_pid(None), None);
}

#[test]
fn bounds_need_every_entry() {
    let full = BoundsEntries { x: Some(1), y: Some(2), width: Some(3), height: Some(4) };
    assert_eq!(window_bounds(Some(full)), Some(Rect { x: 1, y: 2, width: 3, height: 4 }));
    assert_eq!(window_bounds(Some(BoundsEntries { x: None, ..full })), None);
    assert_eq!(window_bounds(Some(BoundsEntries { y: None, ..full })), None);
    assert_eq!(window_bounds(Some(BoundsEntries { width: None, ..full })), None);
    assert_eq!(window_bounds(Some(BoundsEntries { height: None, ..full })), None);
    assert_eq!(window_bounds::<u8>(None), None);
}

#[test]
fn attributes_are_read_or_explained() {
    assert_eq!(ax_element_attribute(0, "kAXErrorSuccess", false, "AXRole"), Ok(()));
    assert_eq!(
        ax_element_attribute(0, "kAXErrorSuccess", true, "AXRole"),
        Err("AXUIElementCopyAttributeValue returned null for AXRole".to_string())
    );
    assert_eq!(
        ax_element_attribute(-25204, "kAXErrorCannotComplete", true, "AXRole"),
        Err("AXUIElementCopyAttributeValue failed: kAXErrorCannotComplete".to_string())
    );
    assert_eq!(focused_window_pid(0, "kAXErrorSuccess", 20), Ok(20));
    assert_eq!(
        focused_window_pid(-25200, "kAXErrorFailure", 20),
        Err("AXUIElementGetPid failed: kAXErrorFailure".to_string())
    );
}

#[test]
fn text_areas_are_told_by_their_role() {
    assert!(is_textarea(Some("AXTextArea")));
    assert!(!is_textarea(Some("AXTextField")));
    assert!(!is_textarea(None));
    assert!(RectCollector::<u8, u8>::wants_element(true, Some("AXTextArea")));
    assert!(!RectCollector::<u8, u8>::wants_element(false, Some("AXTextArea")));
    assert!(!RectCollector::<u8, u8>::wants_element(true, None));
}

fn ask(event: RangeEvent<f64>) -> RangeAction<f64> {
    element_rect_for_text_range(event)
}

#[test]
fn ranges_are_asked_for_step_by_step() {
    assert!(matches!(
        ask(RangeEvent::Wanted { start_index: 3, length: 5 }),
        RangeAction::CreateRange { location: 3, length: 5 }
    ));
    assert!(matches!(
        ask(RangeEvent::RangeCreated { location: 3, length: 5, created: true }),
        RangeAction::CopyBounds { location: 3, length: 5 }
    ));
    assert!(matches!(
        ask(RangeEvent::RangeCreated { location: 3, length: 5, created: false }),
        RangeAction::Done(Err(-25201))
    ));
    let copied = |error: i32, has_value: bool| ask(RangeEvent::BoundsCopied { error, has_value });
    assert!(matches!(copied(0, true), RangeAction::CheckType));
    assert!(matches!(copied(0, false), RangeAction::Done(Ok(None))));
    assert!(matches!(copied(-25212, true), RangeAction::Done(Ok(None))));
    assert!(matches!(copied(-25213, false), RangeAction::Done(Ok(None))));
    assert!(matches!(copied(-25204, true), RangeAction::Done(Err(-25204))));
    assert!(matches!(ask(RangeEvent::TypeChecked(true)), RangeAction::ReadRect));
    assert!(matches!(ask(RangeEvent::TypeChecked(false)), RangeAction::Done(Ok(None))));
    match ask(RangeEvent::RectRead(Some(rect(1.5)))) {
        RangeAction::Done(Ok(Some(found))) => assert_eq!(found, rect(1.5)),
        _ => panic!("the rectangle was read"),
    }
    assert!(matches!(ask(RangeEvent::RectRead(None)), RangeAction::Done(Ok(None))));
}

#[test]
fn ranges_are_counted_in_signed_numbers() {
    assert_eq!(text_range(3, 5), (3, 5));
    assert_eq!(text_range(0, isize::MAX as usize), (0, isize::MAX));
    assert_eq!(text_range(usize::MAX, 0), (-1, 0));
}

#[test]
fn lints_with_a_place_are_collected_in_order() {
    let place = |lint: u8, rect: Result<Option<Rect<u8>>, i32>| PlacedLint { lint, rect };
    let at = |x: u8| Ok(Some(Rect { x, y: 0, width: 1, height: 1 }));
    let organized = vec![
        RuleLints {
            rule_name: "Commas".to_string(),
            lints: vec![place(1, at(10)), place(2, Ok(None)), place(3, Err(-25200)), place(4, at(40))],
        },
        RuleLints { rule_name: "Empty".to_string(), lints: Vec::new() },
        RuleLints { rule_name: "Spelling".to_string(), lints: vec![place(5, at(50))] },
    ];
    let mut collector = RectCollector::new();
    collector.enter_element(organized, "first text".to_string());
    collector.enter_element(
        vec![RuleLints { rule_name: "Spelling".to_string(), lints: vec![place(6, at(60))] }],
        "second text".to_string(),
    );
    let found: Vec<(u8, u8, String, String)> = collector
        .unwrap_rects()
        .into_iter()
        .map(|lint| (lint.lint, lint.rect.x, lint.rule_name, lint.source_text))
        .collect();
    let expected = [
        (1, 10, "Commas", "first text"),
        (4, 40, "Commas", "first text"),
        (5, 50, "Spelling", "first text"),
        (6, 60, "Spelling", "second text"),
    ];
    assert_eq!(found.len(), 4);
    assert!(found.windows(2).all(|pair| pair[0].2 <= pair[1].2));
    for (one, other) in found.iter().zip(expected) {
        assert_eq!((one.0, one.1, one.2.as_str(), one.3.as_str()), other);
    }
}
