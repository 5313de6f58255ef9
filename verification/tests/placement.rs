use keycast::{
    center_in, monitor_for_pointer, placement_at_pointer, Dimensions, KeyPhase, ModifierKeys,
    PanelAction, PanelController, Point, Rect, ShortcutDispatcher, ShortcutEvent,
    default_binding, SEMICOLON_CODE,
};

fn display_a() -> Rect {
    Rect { x: 0, y: 0, width: 1920, height: 1080 }
}

fn display_b() -> Rect {
    Rect { x: 1920, y: 0, width: 1280, height: 1024 }
}

#[test]
fn centering_a_600_by_400_window_on_display_a() {
    let p = center_in(&display_a(), &Dimensions { width: 600, height: 400 });
    assert_eq!(p, Point { x: 660, y: 340 });
}

#[test]
fn centering_respects_the_monitor_origin() {
    let p = center_in(&display_b(), &Dimensions { width: 600, height: 400 });
    assert_eq!(p, Point { x: 1920 + 340, y: 312 });
}

#[test]
fn centering_a_window_larger_than_the_monitor_overhangs_evenly() {
    let small = Rect { x: 0, y: 0, width: 800, height: 600 };
    let p = center_in(&small, &Dimensions { width: 1000, height: 700 });
    assert_eq!(p, Point { x: -100, y: -50 });
}

#[test]
fn centering_rounds_odd_slack_toward_the_origin() {
    let bounds = Rect { x: 10, y: 20, width: 5, height: 7 };
    let p = center_in(&bounds, &Dimensions { width: 2, height: 2 });
    assert_eq!(p, Point { x: 11, y: 22 });
}

#[test]
fn rectangle_far_edges_are_exclusive() {
    assert!(display_a().contains(&Point { x: 0, y: 0 }));
    assert!(display_a().contains(&Point { x: 1919, y: 1079 }));
    assert!(!display_a().contains(&Point { x: 1920, y: 0 }));
    assert!(!display_a().contains(&Point { x: 0, y: 1080 }));
}

#[test]
fn locator_picks_the_display_under_the_pointer() {
    let monitors = vec![display_a(), display_b()];
    let on_b = Point { x: 2000, y: 500 };
    assert_eq!(monitor_for_pointer(&monitors, &on_b, &display_a()), display_b());
    let on_a = Point { x: 15, y: 900 };
    assert_eq!(monitor_for_pointer(&monitors, &on_a, &display_a()), display_a());
}

#[test]
fn locator_falls_back_to_the_primary_display() {
    let monitors = vec![display_a(), display_b()];
    let nowhere = Point { x: -5, y: -5 };
    assert_eq!(monitor_for_pointer(&monitors, &nowhere, &display_a()), display_a());
    // Even with no monitor reported at all, the primary bounds are used.
    let none: Vec<Rect> = Vec::new();
    assert_eq!(monitor_for_pointer(&none, &Point { x: 10, y: 10 }, &display_b()), display_b());
}

#[test]
fn locator_prefers_the_first_of_overlapping_displays() {
    let twin = Rect { x: 0, y: 0, width: 1920, height: 1080 };
    let monitors = vec![display_a(), twin];
    assert_eq!(monitor_for_pointer(&monitors, &Point { x: 100, y: 100 }, &display_b()), display_a());
}

#[test]
fn placement_centers_on_the_pointer_monitor() {
    let monitors = vec![display_a(), display_b()];
    let size = Dimensions { width: 600, height: 400 };
    let p = placement_at_pointer(&Point { x: 2500, y: 100 }, &monitors, &display_a(), &size);
    assert_eq!(p, Point { x: 2260, y: 312 });
}

#[test]
fn fresh_process_toggle_shows_centered_on_display_a() {
    // Fresh process, pointer on display A, window of 600 by 400: the first
    // toggle promotes the window, shows the panel, and the computed origin
    // is (660, 340).
    let mut dispatcher = ShortcutDispatcher::new(default_binding());
    dispatcher.complete_registration(true);
    let mut controller = PanelController::new();
    let press = ShortcutEvent {
        modifiers: ModifierKeys { super_key: true, shift: true, alt: false, control: false },
        code: SEMICOLON_CODE,
        phase: KeyPhase::Pressed,
    };
    let mut action = dispatcher.handle_event(&mut controller, &press);
    if action == PanelAction::PromoteFirst {
        action = controller.resume_toggle_after_promotion(true);
    }
    assert_eq!(action, PanelAction::ShowWindow);
    assert!(controller.is_visible());
    let monitors = vec![display_a()];
    let origin = placement_at_pointer(
        &Point { x: 800, y: 600 },
        &monitors,
        &display_a(),
        &Dimensions { width: 600, height: 400 },
    );
    assert_eq!(origin, Point { x: 660, y: 340 });
}
