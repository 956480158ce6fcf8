use input_router::{
    ActionID, Binding, Button, BuiltContext, ContextBuilder, CoordinateSpace, InputRouter,
    MouseButton, RawDeviceState, Ratio, RouterError, Sensitivity, Vec2i, Vector2, Viewport,
};

const SPACE: Button = Button::Key(44);
const ESCAPE: Button = Button::Key(41);

fn vp() -> Viewport {
    Viewport { width: 800, height: 600 }
}

fn built(b: ContextBuilder, router: &mut InputRouter) -> BuiltContext {
    b.build(router).unwrap()
}

fn frame_with(held: &[Button], new: &[Button]) -> RawDeviceState {
    let mut raw = RawDeviceState::new();
    raw.active_buttons = held.to_vec();
    raw.new_buttons = new.to_vec();
    raw
}

fn ratio(num: i128, den: i128) -> Ratio {
    Ratio { num, den }
}

#[test]
fn state_action_edges_follow_previous_frame() {
    let mut router = InputRouter::new();
    let mut b = router.new_context("Keyboard");
    b.new_state("State", Button::Mouse(MouseButton::Left));
    let ctx = built(b, &mut router);
    router.enter_context(ctx.context).unwrap();
    let a = ctx.actions[0];
    let left = Button::Mouse(MouseButton::Left);

    let f1 = router.resolve(&frame_with(&[left], &[left]), vp());
    assert!(f1.active(a) && f1.entered(a) && !f1.left(a));

    let f2 = router.resolve(&frame_with(&[left], &[]), vp());
    assert!(f2.active(a) && !f2.entered(a) && !f2.left(a));

    let f3 = router.resolve(&frame_with(&[], &[]), vp());
    assert!(!f3.active(a) && !f3.entered(a) && f3.left(a));

    let f4 = router.resolve(&frame_with(&[], &[]), vp());
    assert!(!f4.active(a) && !f4.entered(a) && !f4.left(a));
}

#[test]
fn entered_and_left_never_both() {
    let mut router = InputRouter::new();
    let mut b = router.new_context("Keyboard");
    b.new_state("Hold", SPACE);
    let ctx = built(b, &mut router);
    router.enter_context(ctx.context).unwrap();
    let a = ctx.actions[0];
    let pattern = [true, false, true, true, false, false, true];
    for held in pattern {
        let raw = if held { frame_with(&[SPACE], &[]) } else { frame_with(&[], &[]) };
        let f = router.resolve(&raw, vp());
        assert!(!(f.entered(a) && f.left(a)));
    }
}

#[test]
fn first_frame_has_no_previous_activity() {
    let mut router = InputRouter::new();
    let mut b = router.new_context("Keyboard");
    b.new_state("Hold", SPACE);
    let ctx = built(b, &mut router);
    router.enter_context(ctx.context).unwrap();
    assert_eq!(router.frame_state().len(), 0);
    let f = router.resolve(&frame_with(&[SPACE], &[]), vp());
    assert!(f.entered(ctx.actions[0]));
}

#[test]
fn trigger_fires_once_per_press_and_hold() {
    let mut router = InputRouter::new();
    let mut b = router.new_context("Keyboard");
    b.new_trigger("Trigger", SPACE);
    let ctx = built(b, &mut router);
    router.enter_context(ctx.context).unwrap();
    let t = ctx.actions[0];

    let mut raw = RawDeviceState::new();
    raw.press(SPACE);
    assert!(router.resolve(&raw, vp()).active(t));

    raw.begin_frame();
    raw.press(SPACE);
    let f = router.resolve(&raw, vp());
    assert!(!f.active(t));

    raw.begin_frame();
    raw.release(SPACE);
    assert!(!router.resolve(&raw, vp()).active(t));

    raw.begin_frame();
    raw.press(SPACE);
    assert!(router.resolve(&raw, vp()).active(t));
}

#[test]
fn trigger_is_never_entered_or_left() {
    let mut router = InputRouter::new();
    let mut b = router.new_context("Keyboard");
    b.new_trigger("Trigger", SPACE);
    let ctx = built(b, &mut router);
    router.enter_context(ctx.context).unwrap();
    let f = router.resolve(&frame_with(&[SPACE], &[SPACE]), vp());
    assert!(f.active(ctx.actions[0]));
    assert!(!f.entered(ctx.actions[0]));
    assert!(!f.left(ctx.actions[0]));
    assert_eq!(f.mouse(ctx.actions[0]), None);
}

fn two_context_router() -> (InputRouter, ActionID, ActionID) {
    let mut router = InputRouter::new();
    let mut hi = router.new_context("Menu");
    hi.set_priority(10);
    hi.new_trigger("Close", ESCAPE);
    let hi = built(hi, &mut router);
    let mut lo = router.new_context("Game");
    lo.set_priority(5);
    lo.new_trigger("Pause", ESCAPE);
    let lo = built(lo, &mut router);
    router.enter_context(hi.context).unwrap();
    router.enter_context(lo.context).unwrap();
    (router, hi.actions[0], lo.actions[0])
}

#[test]
fn higher_priority_context_takes_the_binding() {
    let (mut router, hi, lo) = two_context_router();
    let f = router.resolve(&frame_with(&[ESCAPE], &[ESCAPE]), vp());
    assert!(f.active(hi));
    assert!(!f.active(lo));
}

#[test]
fn binding_returns_when_higher_context_leaves() {
    let mut router = InputRouter::new();
    let mut lo = router.new_context("Game");
    lo.set_priority(5);
    lo.new_trigger("Pause", ESCAPE);
    let lo = built(lo, &mut router);
    let mut hi = router.new_context("Menu");
    hi.set_priority(10);
    hi.new_trigger("Close", ESCAPE);
    let hi = built(hi, &mut router);
    router.enter_context(hi.context).unwrap();
    router.enter_context(lo.context).unwrap();
    let f = router.resolve(&frame_with(&[ESCAPE], &[ESCAPE]), vp());
    assert!(f.active(hi.actions[0]) && !f.active(lo.actions[0]));

    router.set_context_active(hi.context, false).unwrap();
    let f = router.resolve(&frame_with(&[ESCAPE], &[ESCAPE]), vp());
    assert!(!f.active(hi.actions[0]) && f.active(lo.actions[0]));
}

#[test]
fn equal_priority_goes_to_first_declared() {
    let mut router = InputRouter::new();
    let mut a = router.new_context("First");
    a.new_state("A", SPACE);
    let a = built(a, &mut router);
    let mut b = router.new_context("Second");
    b.new_trigger("B", SPACE);
    let b = built(b, &mut router);
    router.enter_context(a.context).unwrap();
    router.enter_context(b.context).unwrap();
    let f = router.resolve(&frame_with(&[SPACE], &[SPACE]), vp());
    assert!(f.active(a.actions[0]));
    assert!(!f.active(b.actions[0]));
}

#[test]
fn resolution_is_deterministic() {
    let (mut r1, hi1, lo1) = two_context_router();
    let (mut r2, hi2, lo2) = two_context_router();
    assert_eq!((hi1, lo1), (hi2, lo2));
    let raws = [
        frame_with(&[ESCAPE], &[ESCAPE]),
        frame_with(&[ESCAPE], &[]),
        frame_with(&[], &[]),
    ];
    for raw in raws.iter() {
        let f1 = r1.resolve(raw, vp());
        let f2 = r2.resolve(raw, vp());
        assert_eq!(f1.len(), f2.len());
        for i in 0..f1.len() {
            let id = ActionID { index: i };
            assert_eq!(f1.state(id), f2.state(id));
        }
    }
}

#[test]
fn inactive_group_hides_pointer_until_activated() {
    let mut router = InputRouter::new();
    let window = router.new_context_group("Window Mouse");
    let normalized = router.new_context_group("Normalized Mouse");
    router.set_context_group_active(window, true).unwrap();
    router.set_context_group_active(normalized, false).unwrap();

    let mut b = router.new_context("Absolute Mouse (Normalized)");
    b.new_pointer("", CoordinateSpace::Normalized);
    b.set_context_group(normalized);
    let ctx = built(b, &mut router);
    router.enter_context(ctx.context).unwrap();
    let p = ctx.actions[0];

    let mut raw = RawDeviceState::new();
    raw.mouse_absolute = Some(Vec2i { x: 400, y: 300 });
    for _ in 0..3 {
        let f = router.resolve(&raw, vp());
        assert_eq!(f.mouse(p), None);
        assert!(!f.active(p));
    }
    router.set_context_group_active(normalized, true).unwrap();
    let f = router.resolve(&raw, vp());
    assert_eq!(f.mouse(p), Some(Vector2 { x: ratio(0, 800), y: ratio(0, 600) }));
}

#[test]
fn toggle_takes_effect_on_next_resolve_only() {
    let mut router = InputRouter::new();
    let mut b = router.new_context("Keyboard");
    b.new_state("Hold", SPACE);
    let ctx = built(b, &mut router);
    let a = ctx.actions[0];
    let raw = frame_with(&[SPACE], &[SPACE]);

    let before = router.resolve(&raw, vp());
    assert!(!before.active(a));
    router.enter_context(ctx.context).unwrap();
    assert_eq!(router.is_context_active(ctx.context), Ok(true));
    assert!(!before.active(a));
    assert!(!router.frame_state().active(a));

    let after = router.resolve(&raw, vp());
    assert!(after.active(a));
    router.set_context_active(ctx.context, false).unwrap();
    assert!(after.active(a));
    assert!(router.frame_state().active(a));
    assert!(!router.resolve(&raw, vp()).active(a));
}

#[test]
fn deactivated_state_action_reports_left_once() {
    let mut router = InputRouter::new();
    let mut b = router.new_context("Keyboard");
    b.new_state("Hold", SPACE);
    let ctx = built(b, &mut router);
    router.enter_context(ctx.context).unwrap();
    let a = ctx.actions[0];
    let raw = frame_with(&[SPACE], &[]);
    assert!(router.resolve(&raw, vp()).active(a));
    router.set_context_active(ctx.context, false).unwrap();
    let f = router.resolve(&raw, vp());
    assert!(!f.active(a) && f.left(a) && !f.entered(a));
    let f = router.resolve(&raw, vp());
    assert!(!f.active(a) && !f.left(a));
}

#[test]
fn mouse_without_delta_resolves_to_zero() {
    let mut router = InputRouter::new();
    let mut b = router.new_context("Relative Mouse");
    b.new_mouse("", CoordinateSpace::Window, Sensitivity::one());
    let ctx = built(b, &mut router);
    router.enter_context(ctx.context).unwrap();
    let f = router.resolve(&RawDeviceState::new(), vp());
    assert_eq!(f.mouse(ctx.actions[0]), Some(Vector2 { x: ratio(0, 1), y: ratio(0, 1) }));
    assert!(!f.active(ctx.actions[0]));
}

#[test]
fn mouse_delta_is_scaled_and_mapped() {
    let mut router = InputRouter::new();
    let mut b = router.new_context("Relative Mouse");
    b.new_mouse("window", CoordinateSpace::Window, Sensitivity { milli: 1500 });
    b.new_mouse("normalized", CoordinateSpace::Normalized, Sensitivity::one());
    b.new_mouse("aspect", CoordinateSpace::PreserveAspect, Sensitivity::one());
    let ctx = built(b, &mut router);
    router.enter_context(ctx.context).unwrap();
    let mut raw = RawDeviceState::new();
    raw.mouse_delta = Some(Vec2i { x: 4, y: -2 });
    let f = router.resolve(&raw, vp());
    assert!(f.active(ctx.actions[0]));
    assert_eq!(
        f.mouse(ctx.actions[0]),
        Some(Vector2 { x: ratio(6000, 1000), y: ratio(-3000, 1000) })
    );
    assert_eq!(
        f.mouse(ctx.actions[1]),
        Some(Vector2 { x: ratio(8000, 800_000), y: ratio(-4000, 600_000) })
    );
    assert_eq!(
        f.mouse(ctx.actions[2]),
        Some(Vector2 { x: ratio(8000, 800_000), y: ratio(-4000, 800_000) })
    );
}

#[test]
fn pointer_without_position_is_none() {
    let mut router = InputRouter::new();
    let mut b = router.new_context("Absolute Mouse");
    b.new_pointer("", CoordinateSpace::Window);
    let ctx = built(b, &mut router);
    router.enter_context(ctx.context).unwrap();
    let f = router.resolve(&RawDeviceState::new(), vp());
    assert_eq!(f.mouse(ctx.actions[0]), None);
    assert!(!f.active(ctx.actions[0]));
}

#[test]
fn pointer_positions_in_each_space() {
    let mut router = InputRouter::new();
    let mut b = router.new_context("Absolute Mouse");
    b.new_pointer("window", CoordinateSpace::Window);
    b.new_pointer("normalized", CoordinateSpace::Normalized);
    b.new_pointer("aspect", CoordinateSpace::PreserveAspect);
    let ctx = built(b, &mut router);
    router.enter_context(ctx.context).unwrap();
    let mut raw = RawDeviceState::new();
    raw.mouse_absolute = Some(Vec2i { x: 0, y: 300 });
    let f = router.resolve(&raw, vp());
    assert_eq!(f.mouse(ctx.actions[0]), Some(Vector2 { x: ratio(0, 1), y: ratio(300, 1) }));
    assert_eq!(f.mouse(ctx.actions[1]), Some(Vector2 { x: ratio(-800, 800), y: ratio(0, 600) }));
    assert_eq!(f.mouse(ctx.actions[2]), Some(Vector2 { x: ratio(-800, 800), y: ratio(0, 800) }));
    assert!(f.active(ctx.actions[2]));
}

#[test]
fn unknown_identities_are_rejected() {
    let mut router = InputRouter::new();
    let g = router.new_context_group("Group");
    let mut b = router.new_context("Bad");
    b.new_trigger("t", SPACE);
    b.set_context_group(input_router::ContextGroupID { index: g.index + 1 });
    assert_eq!(b.build(&mut router).err(), Some(RouterError::UnknownIdentity));
    assert_eq!(router.contexts().len(), 0);

    let missing = input_router::ContextID { index: 3 };
    assert_eq!(router.set_context_active(missing, true), Err(RouterError::UnknownIdentity));
    assert_eq!(router.is_context_active(missing), Err(RouterError::UnknownIdentity));
    let missing_group = input_router::ContextGroupID { index: 7 };
    assert_eq!(
        router.set_context_group_active(missing_group, true),
        Err(RouterError::UnknownIdentity)
    );
    assert_eq!(router.is_context_group_active(missing_group), Err(RouterError::UnknownIdentity));
    assert_eq!(router.is_context_group_active(g), Ok(true));
}

#[test]
fn unknown_action_queries_are_inactive() {
    let mut router = InputRouter::new();
    let f = router.resolve(&frame_with(&[SPACE], &[SPACE]), vp());
    let id = ActionID { index: 12 };
    assert!(!f.active(id) && !f.entered(id) && !f.left(id));
    assert_eq!(f.mouse(id), None);
}

#[test]
fn build_assigns_identities_in_declaration_order() {
    let mut router = InputRouter::new();
    let mut a = router.new_context("A");
    a.new_trigger("one", SPACE);
    a.new_state("two", ESCAPE);
    let a = built(a, &mut router);
    let mut b = router.new_context("B");
    b.new_pointer("three", CoordinateSpace::Window);
    let b = built(b, &mut router);
    assert_eq!(a.context.index, 0);
    assert_eq!(b.context.index, 1);
    assert_eq!(a.actions, vec![ActionID { index: 0 }, ActionID { index: 1 }]);
    assert_eq!(b.actions, vec![ActionID { index: 2 }]);
    let action = router.action(ActionID { index: 1 }).unwrap();
    assert_eq!(action.binding, Binding::State(ESCAPE));
    assert_eq!(action.name, "two");
    assert_eq!(action.context, a.context);
    assert_eq!(router.context(b.context).unwrap().name, "B");
    assert_eq!(router.is_context_active(a.context), Ok(false));
}

#[test]
fn empty_context_is_legal() {
    let mut router = InputRouter::new();
    let b = router.new_context("Empty");
    let ctx = built(b, &mut router);
    assert!(ctx.actions.is_empty());
    router.enter_context(ctx.context).unwrap();
    assert_eq!(router.resolve(&RawDeviceState::new(), vp()).len(), 0);
}
