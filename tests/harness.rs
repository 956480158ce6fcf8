use input_router::harness::{
    setup as harness_setup, ContextGroups, Controls, FrameDecision, FrameEvent, StateTrackingTab,
};
use input_router::space::{transform_delta, transform_position};
use input_router::{
    Binding, Button, ButtonEvent, CoordinateSpace, InputRouter, MouseButton, RawDeviceState, Ratio,
    Sensitivity, Vector2, Viewport,
};

fn ratio(num: i128, den: i128) -> Ratio {
    Ratio { num, den }
}

#[test]
fn preserve_aspect_center_maps_to_origin() {
    for (w, h) in [(800u32, 600u32), (300, 900), (1024, 1024), (2, 4000)] {
        let vp = Viewport { width: w, height: h };
        let c = transform_position(CoordinateSpace::PreserveAspect, (w / 2) as i32, (h / 2) as i32, vp);
        assert_eq!(c.x.num, 0);
        assert_eq!(c.y.num, 0);
        assert!(c.x.den > 0 && c.y.den > 0);
    }
}

#[test]
fn preserve_aspect_uses_the_smaller_scale() {
    let vp = Viewport { width: 300, height: 900 };
    let p = transform_position(CoordinateSpace::PreserveAspect, 300, 0, vp);
    assert_eq!(p, Vector2 { x: ratio(300, 900), y: ratio(-900, 900) });
    let d = transform_delta(CoordinateSpace::PreserveAspect, 9, 9, Sensitivity::one(), vp);
    assert_eq!(d, Vector2 { x: ratio(18_000, 900_000), y: ratio(18_000, 900_000) });
}

#[test]
fn zero_extent_counts_as_one_pixel() {
    let vp = Viewport { width: 0, height: 0 };
    let p = transform_position(CoordinateSpace::Normalized, 1, 0, vp);
    assert_eq!(p, Vector2 { x: ratio(1, 1), y: ratio(-1, 1) });
}

#[test]
fn window_space_is_identity() {
    let vp = Viewport { width: 640, height: 480 };
    let p = transform_position(CoordinateSpace::Window, -5, 470, vp);
    assert_eq!(p, Vector2 { x: ratio(-5, 1), y: ratio(470, 1) });
}

#[test]
fn raw_state_tracks_presses_and_releases() {
    let left = Button::Mouse(MouseButton::Left);
    let key = Button::Key(7);
    let mut raw = RawDeviceState::new();
    raw.apply(ButtonEvent::Press(left));
    raw.apply(ButtonEvent::Press(key));
    raw.apply(ButtonEvent::Press(left));
    assert_eq!(raw.active_buttons, vec![left, key]);
    assert_eq!(raw.new_buttons, vec![left, key]);
    raw.begin_frame();
    assert!(raw.new_buttons.is_empty());
    raw.apply(ButtonEvent::Release(left));
    raw.apply(ButtonEvent::Release(Button::Key(9)));
    assert_eq!(raw.active_buttons, vec![key]);
    assert_eq!(raw.released_buttons, vec![left]);
    assert!(raw.new_buttons.is_empty());
}

fn setup() -> (InputRouter, ContextGroups, Controls) {
    let mut router = InputRouter::new();
    let s = harness_setup(&mut router);
    (router, s.groups, s.controls)
}

#[test]
fn setup_registers_harness_contexts() {
    let mut router = InputRouter::new();
    let s = harness_setup(&mut router);
    assert_eq!(router.context_groups().len(), 3);
    assert_eq!(router.contexts().len(), 7);
    assert_eq!(router.is_context_group_active(s.groups.standard_mouse_group), Ok(true));
    assert_eq!(router.is_context_group_active(s.groups.normalized_mouse_group), Ok(false));
    assert_eq!(router.is_context_group_active(s.groups.preserve_aspect_mouse_group), Ok(false));
    assert_eq!(router.is_context_active(s.keyboard_context), Ok(true));
    assert_eq!(router.is_context_active(s.absolute_mouse_context_normalized), Ok(true));
    assert_eq!(router.is_context_active(s.controls.relative_mouse_context), Ok(false));
    let quit = router.action(s.controls.keys.quit).unwrap();
    assert_eq!(quit.name, "Quit");
    assert_eq!(quit.binding, Binding::Trigger(Button::Key(41)));

    let vp = Viewport { width: 800, height: 600 };
    let mut raw = RawDeviceState::new();
    raw.mouse_absolute = Some(input_router::Vec2i { x: 0, y: 0 });
    let f = router.resolve(&raw, vp);
    assert_eq!(f.mouse(router.context(s.absolute_mouse_context).unwrap().actions[0]),
        Some(Vector2 { x: ratio(0, 1), y: ratio(0, 1) }));
    assert_eq!(f.mouse(router.context(s.absolute_mouse_context_normalized).unwrap().actions[0]), None);
}

fn pressed(b: Button) -> RawDeviceState {
    let mut raw = RawDeviceState::new();
    raw.press(b);
    raw
}

#[test]
fn select_space_activates_exactly_one_group() {
    let (mut router, groups, _) = setup();
    groups.select_space(&mut router, CoordinateSpace::Normalized);
    assert_eq!(router.is_context_group_active(groups.standard_mouse_group), Ok(false));
    assert_eq!(router.is_context_group_active(groups.normalized_mouse_group), Ok(true));
    assert_eq!(router.is_context_group_active(groups.preserve_aspect_mouse_group), Ok(false));
    groups.select_space(&mut router, CoordinateSpace::Window);
    assert_eq!(router.is_context_group_active(groups.standard_mouse_group), Ok(true));
    assert_eq!(router.is_context_group_active(groups.normalized_mouse_group), Ok(false));
}

#[test]
fn toggle_relative_mouse_enters_relative_contexts() {
    let (mut router, _, mut controls) = setup();
    let vp = Viewport { width: 800, height: 600 };
    let f = router.resolve(&pressed(Button::Key(21)), vp);
    assert_eq!(controls.step(&mut router, &f), FrameDecision::Continue);
    assert!(controls.relative_mouse);
    assert_eq!(router.is_context_active(controls.relative_mouse_context), Ok(true));
    assert_eq!(router.is_context_active(controls.relative_mouse_context_normalized), Ok(true));
    let f = router.resolve(&pressed(Button::Key(21)), vp);
    assert_eq!(controls.step(&mut router, &f), FrameDecision::Continue);
    assert!(!controls.relative_mouse);
    assert_eq!(router.is_context_active(controls.relative_mouse_context_preserve_aspect), Ok(false));
}

#[test]
fn quit_stops_before_other_toggles() {
    let (mut router, _, mut controls) = setup();
    let vp = Viewport { width: 800, height: 600 };
    let mut raw = pressed(Button::Key(41));
    raw.press(Button::Key(7));
    let f = router.resolve(&raw, vp);
    assert_eq!(controls.step(&mut router, &f), FrameDecision::Quit);
    assert!(!controls.show_demo_window);
    let f = router.resolve(&pressed(Button::Key(7)), vp);
    assert_eq!(controls.step(&mut router, &f), FrameDecision::Continue);
    assert!(controls.show_demo_window);
}

#[test]
fn state_tracking_logs_events_in_order() {
    let (mut router, _, controls) = setup();
    let vp = Viewport { width: 800, height: 600 };
    let mut tab = StateTrackingTab::new(controls.keys.state, controls.keys.trigger);
    let mut raw = RawDeviceState::new();
    raw.press(Button::Key(44));
    raw.press(Button::Mouse(MouseButton::Left));
    let f = router.resolve(&raw, vp);
    tab.update(&f, &raw);
    raw.begin_frame();
    raw.release(Button::Mouse(MouseButton::Left));
    let f = router.resolve(&raw, vp);
    tab.update(&f, &raw);
    assert_eq!(
        tab.processed_events,
        vec![FrameEvent::Trigger, FrameEvent::StateEntered, FrameEvent::StateLeft]
    );
    assert_eq!(tab.new_button_events, vec![Button::Key(44), Button::Mouse(MouseButton::Left)]);
    let labels: Vec<&str> = tab.processed_events.iter().map(|e| e.label()).collect();
    assert_eq!(labels, vec!["Trigger", "State Entered", "State Left"]);
}

#[test]
fn pointer_motion_accumulates_within_a_frame() {
    let mut raw = RawDeviceState::new();
    raw.move_pointer(10, 20, 3, -1);
    raw.move_pointer(12, 19, 2, -1);
    assert_eq!(raw.mouse_absolute, Some(input_router::Vec2i { x: 12, y: 19 }));
    assert_eq!(raw.mouse_delta, Some(input_router::Vec2i { x: 5, y: -2 }));
    raw.scroll(1);
    raw.scroll(-3);
    assert_eq!(raw.wheel_delta, Some(-2));
    raw.begin_frame();
    assert_eq!(raw.mouse_delta, None);
    assert_eq!(raw.wheel_delta, None);
    assert_eq!(raw.mouse_absolute, Some(input_router::Vec2i { x: 12, y: 19 }));
    raw.leave_window();
    assert_eq!(raw.mouse_absolute, None);
}

#[test]
fn motion_saturates_at_i32_bounds() {
    let mut raw = RawDeviceState::new();
    raw.move_pointer(0, 0, i32::MAX, i32::MIN);
    raw.move_pointer(0, 0, 5, -5);
    assert_eq!(raw.mouse_delta, Some(input_router::Vec2i { x: i32::MAX, y: i32::MIN }));
}
