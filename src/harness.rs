//! Per-frame decisions of an interactive input debugging harness: which
//! mouse space is shown, toggling relative-mouse contexts, and the log of
//! resolved events.
use vstd::prelude::*;

use crate::action::{state_of, ActionID, ActionState, Binding, ContextGroupID, ContextID, FrameState};
use crate::device::{Button, MouseButton, RawDeviceState};
use crate::router::{InputRouter, RouterView};
use crate::space::{CoordinateSpace, Sensitivity};

verus! {

/// The three mutually exclusive mouse-space groups.
#[derive(Clone, Copy, Debug, PartialEq, Eq, Structural)]
pub struct ContextGroups {
    pub standard_mouse_group: ContextGroupID,
    pub normalized_mouse_group: ContextGroupID,
    pub preserve_aspect_mouse_group: ContextGroupID,
}

impl ContextGroups {
    /// All three groups are registered with the router.
    pub open spec fn known_to(self, v: RouterView) -> bool {
        &&& self.standard_mouse_group.index < v.groups.len()
        &&& self.normalized_mouse_group.index < v.groups.len()
        &&& self.preserve_aspect_mouse_group.index < v.groups.len()
    }

    /// Activates the group of `space` and deactivates the other two.
    pub fn select_space(&self, router: &mut InputRouter, space: CoordinateSpace)
        requires
            old(router)@.wf(),
            self.known_to(old(router)@),
        ensures
            final(router)@ == (RouterView {
                group_active: old(router)@.group_active
                    .update(self.standard_mouse_group.index as int, space == CoordinateSpace::Window)
                    .update(self.normalized_mouse_group.index as int, space == CoordinateSpace::Normalized)
                    .update(
                        self.preserve_aspect_mouse_group.index as int,
                        space == CoordinateSpace::PreserveAspect,
                    ),
                ..old(router)@
            }),
            final(router)@.wf(),
    {
        let _ = router.set_context_group_active(self.standard_mouse_group, space == CoordinateSpace::Window);
        let _ = router.set_context_group_active(self.normalized_mouse_group, space == CoordinateSpace::Normalized);
        let _ = router.set_context_group_active(
            self.preserve_aspect_mouse_group,
            space == CoordinateSpace::PreserveAspect,
        );
    }
}

/// An entry of the processed-event log.
#[derive(Clone, Copy, Debug, PartialEq, Eq, Structural)]
pub enum FrameEvent {
    Trigger,
    StateEntered,
    StateLeft,
}

impl FrameEvent {
    /// The text shown for the event.
    pub fn label(&self) -> &'static str {
        match self {
            FrameEvent::Trigger => "Trigger",
            FrameEvent::StateEntered => "State Entered",
            FrameEvent::StateLeft => "State Left",
        }
    }
}

/// The events that frame `f` reports for a trigger and a state action, in
/// the order trigger, entered, left.
pub open spec fn frame_events(f: Seq<ActionState>, trigger: ActionID, state: ActionID) -> Seq<FrameEvent> {
    (if state_of(f, trigger.index as int).active {
        seq![FrameEvent::Trigger]
    } else {
        Seq::empty()
    }) + (if state_of(f, state.index as int).entered {
        seq![FrameEvent::StateEntered]
    } else {
        Seq::empty()
    }) + (if state_of(f, state.index as int).left {
        seq![FrameEvent::StateLeft]
    } else {
        Seq::empty()
    })
}

/// Logs what a trigger and a state action report, and every raw button press.
#[derive(Clone, Debug)]
pub struct StateTrackingTab {
    pub new_button_events: Vec<Button>,
    pub processed_events: Vec<FrameEvent>,
    pub state_action: ActionID,
    pub trigger_action: ActionID,
}

impl StateTrackingTab {
    /// An empty log for the given actions.
    pub fn new(state_action: ActionID, trigger_action: ActionID) -> (r: StateTrackingTab)
        ensures
            r.new_button_events@.len() == 0,
            r.processed_events@.len() == 0,
            r.state_action == state_action,
            r.trigger_action == trigger_action,
    {
        StateTrackingTab {
            new_button_events: Vec::new(),
            processed_events: Vec::new(),
            state_action,
            trigger_action,
        }
    }

    /// Appends this frame's events and raw presses to the log.
    pub fn update(&mut self, frame: &FrameState, raw: &RawDeviceState)
        ensures
            final(self).processed_events@ == old(self).processed_events@ + frame_events(
                frame@,
                old(self).trigger_action,
                old(self).state_action,
            ),
            final(self).new_button_events@ == old(self).new_button_events@ + raw.new_buttons@,
            final(self).state_action == old(self).state_action,
            final(self).trigger_action == old(self).trigger_action,
    {
        let ghost events0 = self.processed_events@;
        if frame.active(self.trigger_action) {
            self.processed_events.push(FrameEvent::Trigger);
        }
        if frame.entered(self.state_action) {
            self.processed_events.push(FrameEvent::StateEntered);
        }
        if frame.left(self.state_action) {
            self.processed_events.push(FrameEvent::StateLeft);
        }
        assert(self.processed_events@ =~= events0 + frame_events(
            frame@,
            self.trigger_action,
            self.state_action,
        ));
        let ghost presses0 = self.new_button_events@;
        let mut i: usize = 0;
        while i < raw.new_buttons.len()
            invariant
                i <= raw.new_buttons@.len(),
                self.new_button_events@ == presses0 + raw.new_buttons@.subrange(0, i as int),
                self.processed_events@ == old(self).processed_events@ + frame_events(
                    frame@,
                    old(self).trigger_action,
                    old(self).state_action,
                ),
                self.state_action == old(self).state_action,
                self.trigger_action == old(self).trigger_action,
            decreases raw.new_buttons@.len() - i,
        {
            self.new_button_events.push(raw.new_buttons[i]);
            i += 1;
            assert(self.new_button_events@ =~= presses0 + raw.new_buttons@.subrange(0, i as int));
        }
        assert(raw.new_buttons@.subrange(0, i as int) =~= raw.new_buttons@);
    }
}

/// Actions of the harness's keyboard context.
#[derive(Clone, Copy, Debug, PartialEq, Eq, Structural)]
pub struct KeyboardActions {
    pub trigger: ActionID,
    pub state: ActionID,
    pub quit: ActionID,
    pub toggle_relative_mouse: ActionID,
    pub toggle_demo_window: ActionID,
}

/// The harness's toggles and the contexts they drive.
#[derive(Clone, Copy, Debug, PartialEq, Eq, Structural)]
pub struct Controls {
    pub keys: KeyboardActions,
    pub relative_mouse_context: ContextID,
    pub relative_mouse_context_normalized: ContextID,
    pub relative_mouse_context_preserve_aspect: ContextID,
    pub relative_mouse: bool,
    pub show_demo_window: bool,
}

/// What a frame asks of the harness loop.
#[derive(Clone, Copy, Debug, PartialEq, Eq, Structural)]
pub enum FrameDecision {
    Quit,
    Continue,
}

impl Controls {
    /// The three relative-mouse contexts are registered with the router.
    pub open spec fn known_to(self, v: RouterView) -> bool {
        &&& self.relative_mouse_context.index < v.contexts.len()
        &&& self.relative_mouse_context_normalized.index < v.contexts.len()
        &&& self.relative_mouse_context_preserve_aspect.index < v.contexts.len()
    }

    /// The entered flags after the relative-mouse contexts are set to `on`.
    pub open spec fn relative_entered(self, entered: Seq<bool>, on: bool) -> Seq<bool> {
        entered.update(self.relative_mouse_context.index as int, on).update(
            self.relative_mouse_context_normalized.index as int,
            on,
        ).update(self.relative_mouse_context_preserve_aspect.index as int, on)
    }

    /// Acts on one resolved frame: quits when the quit action is active;
    /// otherwise flips relative mouse mode (entering or leaving the three
    /// relative-mouse contexts) and the demo window on their toggles.
    pub fn step(&mut self, router: &mut InputRouter, frame: &FrameState) -> (r: FrameDecision)
        requires
            old(router)@.wf(),
            old(self).known_to(old(router)@),
        ensures
            final(router)@.wf(),
            final(self).known_to(final(router)@),
            final(self).keys == old(self).keys,
            final(self).relative_mouse_context == old(self).relative_mouse_context,
            final(self).relative_mouse_context_normalized == old(self).relative_mouse_context_normalized,
            final(self).relative_mouse_context_preserve_aspect
                == old(self).relative_mouse_context_preserve_aspect,
            ({
                let quit = state_of(frame@, old(self).keys.quit.index as int).active;
                let flip = state_of(frame@, old(self).keys.toggle_relative_mouse.index as int).active;
                let demo = state_of(frame@, old(self).keys.toggle_demo_window.index as int).active;
                if quit {
                    &&& r == FrameDecision::Quit
                    &&& *final(self) == *old(self)
                    &&& final(router)@ == old(router)@
                } else {
                    &&& r == FrameDecision::Continue
                    &&& final(self).relative_mouse == (old(self).relative_mouse != flip)
                    &&& final(self).show_demo_window == (old(self).show_demo_window != demo)
                    &&& final(router)@ == if flip {
                        RouterView {
                            entered: old(self).relative_entered(
                                old(router)@.entered,
                                final(self).relative_mouse,
                            ),
                            ..old(router)@
                        }
                    } else {
                        old(router)@
                    }
                }
            }),
    {
        if frame.active(self.keys.quit) {
            return FrameDecision::Quit;
        }
        if frame.active(self.keys.toggle_relative_mouse) {
            self.relative_mouse = !self.relative_mouse;
            let on = self.relative_mouse;
            let _ = router.set_context_active(self.relative_mouse_context, on);
            let _ = router.set_context_active(self.relative_mouse_context_normalized, on);
            let _ = router.set_context_active(self.relative_mouse_context_preserve_aspect, on);
        }
        if frame.active(self.keys.toggle_demo_window) {
            self.show_demo_window = !self.show_demo_window;
        }
        FrameDecision::Continue
    }
}

/// Everything the harness registers, and its toggles.
#[derive(Clone, Copy, Debug, PartialEq, Eq, Structural)]
pub struct Setup {
    pub groups: ContextGroups,
    pub absolute_mouse_context: ContextID,
    pub absolute_mouse_context_normalized: ContextID,
    pub absolute_mouse_context_preserve_aspect: ContextID,
    pub keyboard_context: ContextID,
    pub controls: Controls,
}

/// Builds one mouse or pointer context in `group`.
fn mouse_context(
    router: &mut InputRouter,
    name: &str,
    group: ContextGroupID,
    space: CoordinateSpace,
    relative: bool,
) -> (r: ContextID)
    requires
        old(router)@.wf(),
        group.index < old(router)@.groups.len(),
    ensures
        final(router)@.wf(),
        r.index == old(router)@.contexts.len(),
        final(router)@.contexts.len() == old(router)@.contexts.len() + 1,
        final(router)@.groups == old(router)@.groups,
        final(router)@.group_active == old(router)@.group_active,
        final(router)@.entered == old(router)@.entered.push(false),
{
    let mut b = router.new_context(name);
    if relative {
        b.new_mouse("", space, Sensitivity::one());
    } else {
        b.new_pointer("", space);
    }
    b.set_context_group(group);
    match b.build(router) {
        Ok(built) => built.context,
        Err(_) => unreached(),
    }
}

/// The keyboard actions are registered with the harness's bindings.
pub open spec fn keyboard_bindings(v: RouterView, k: KeyboardActions) -> bool {
    &&& k.trigger.index < v.actions.len()
    &&& k.state.index < v.actions.len()
    &&& k.quit.index < v.actions.len()
    &&& k.toggle_relative_mouse.index < v.actions.len()
    &&& k.toggle_demo_window.index < v.actions.len()
    &&& v.actions[k.trigger.index as int].binding == Binding::Trigger(Button::Key(SCANCODE_SPACE))
    &&& v.actions[k.state.index as int].binding == Binding::State(Button::Mouse(MouseButton::Left))
    &&& v.actions[k.quit.index as int].binding == Binding::Trigger(Button::Key(SCANCODE_ESCAPE))
    &&& v.actions[k.toggle_relative_mouse.index as int].binding == Binding::Trigger(Button::Key(SCANCODE_R))
    &&& v.actions[k.toggle_demo_window.index as int].binding == Binding::Trigger(Button::Key(SCANCODE_D))
}

/// Registers the harness's groups and contexts: three mouse-space groups of
/// which only the window group is active, a relative (delta) and an absolute
/// (pointer) context per space, and a keyboard context with the trigger,
/// state, quit and toggle actions. The keyboard and absolute contexts are
/// entered; the relative ones wait for their toggle.
pub fn setup(router: &mut InputRouter) -> (r: Setup)
    requires
        old(router)@.wf(),
    ensures
        final(router)@.wf(),
        r.groups.known_to(final(router)@),
        r.controls.known_to(final(router)@),
        r.keyboard_context.index < final(router)@.contexts.len(),
        final(router)@.group_active[r.groups.standard_mouse_group.index as int],
        !final(router)@.group_active[r.groups.normalized_mouse_group.index as int],
        !final(router)@.group_active[r.groups.preserve_aspect_mouse_group.index as int],
        final(router)@.entered[r.keyboard_context.index as int],
        final(router)@.entered[r.absolute_mouse_context.index as int],
        final(router)@.entered[r.absolute_mouse_context_normalized.index as int],
        final(router)@.entered[r.absolute_mouse_context_preserve_aspect.index as int],
        !final(router)@.entered[r.controls.relative_mouse_context.index as int],
        !final(router)@.entered[r.controls.relative_mouse_context_normalized.index as int],
        !final(router)@.entered[r.controls.relative_mouse_context_preserve_aspect.index as int],
        !r.controls.relative_mouse,
        !r.controls.show_demo_window,
        keyboard_bindings(final(router)@, r.controls.keys),
{
    let standard = router.new_context_group("Window Mouse");
    let normalized = router.new_context_group("Normalized Mouse");
    let preserve = router.new_context_group("PreserveAspect Mouse");
    let groups = ContextGroups {
        standard_mouse_group: standard,
        normalized_mouse_group: normalized,
        preserve_aspect_mouse_group: preserve,
    };
    groups.select_space(router, CoordinateSpace::Window);
    let rel = mouse_context(router, "Relative Mouse", standard, CoordinateSpace::Window, true);
    let abs = mouse_context(router, "Absolute Mouse", standard, CoordinateSpace::Window, false);
    let rel_n = mouse_context(router, "Relative Mouse (Normalized)", normalized, CoordinateSpace::Normalized, true);
    let abs_n = mouse_context(router, "Absolute Mouse (Normalized)", normalized, CoordinateSpace::Normalized, false);
    let rel_p = mouse_context(
        router,
        "Relative Mouse (PreserveAspect)",
        preserve,
        CoordinateSpace::PreserveAspect,
        true,
    );
    let abs_p = mouse_context(
        router,
        "Absolute Mouse (PreserveAspect)",
        preserve,
        CoordinateSpace::PreserveAspect,
        false,
    );

    let mut b = router.new_context("Keyboard");
    b.new_trigger("Trigger", Button::Key(SCANCODE_SPACE));
    b.new_state("State", Button::Mouse(MouseButton::Left));
    b.new_trigger("Quit", Button::Key(SCANCODE_ESCAPE));
    b.new_trigger("Toggle Relative Mouse", Button::Key(SCANCODE_R));
    b.new_trigger("Toggle Imgui Demo", Button::Key(SCANCODE_D));
    let (keyboard, keys) = match b.build(router) {
        Ok(built) => {
            (
                built.context,
                KeyboardActions {
                    trigger: built.actions[0],
                    state: built.actions[1],
                    quit: built.actions[2],
                    toggle_relative_mouse: built.actions[3],
                    toggle_demo_window: built.actions[4],
                },
            )
        },
        Err(_) => unreached(),
    };
    let _ = router.enter_context(keyboard);
    let _ = router.enter_context(abs);
    let _ = router.enter_context(abs_n);
    let _ = router.enter_context(abs_p);
    Setup {
        groups,
        absolute_mouse_context: abs,
        absolute_mouse_context_normalized: abs_n,
        absolute_mouse_context_preserve_aspect: abs_p,
        keyboard_context: keyboard,
        controls: Controls {
            keys,
            relative_mouse_context: rel,
            relative_mouse_context_normalized: rel_n,
            relative_mouse_context_preserve_aspect: rel_p,
            relative_mouse: false,
            show_demo_window: false,
        },
    }
}

/// Scancode of the space bar.
pub const SCANCODE_SPACE: u32 = 44;

/// Scancode of the escape key.
pub const SCANCODE_ESCAPE: u32 = 41;

/// Scancode of the R key.
pub const SCANCODE_R: u32 = 21;

/// Scancode of the D key.
pub const SCANCODE_D: u32 = 7;

} // verus!
