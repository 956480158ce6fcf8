//! Properties of resolution that hold for every router and every input.
use vstd::prelude::*;

use crate::action::{inactive_state, state_of, Binding};
use crate::device::{event_step, frame_start_step, Button, ButtonEvent, RawDeviceState};
use crate::router::{claims_button, precedes, Context, RouterView};
use crate::space::{position_spec, CoordinateSpace, Viewport};

verus! {

/// A state action never reports both `entered` and `left` in one frame.
pub proof fn lemma_entered_left_exclusive(v: RouterView, raw: RawDeviceState, vp: Viewport, i: int)
    requires
        v.wf(),
        0 <= i < v.actions.len(),
    ensures
        !(v.resolved(raw, vp)[i].entered && v.resolved(raw, vp)[i].left),
{
}

/// Edges are derived from the lookback frame alone: a state action has
/// `entered` exactly when it is active now and was not in the previous frame
/// (an action the previous frame does not cover, as before the first frame,
/// was not active), and `left` exactly when it was active then and is not
/// now. Other kinds never report either edge.
pub proof fn lemma_state_edges(v: RouterView, raw: RawDeviceState, vp: Viewport, i: int)
    requires
        v.wf(),
        0 <= i < v.actions.len(),
    ensures
        ({
            let now = v.resolved(raw, vp)[i];
            let was = state_of(v.frame, i).active;
            if v.actions[i].binding is State {
                &&& now.entered == (now.active && !was)
                &&& now.left == (!now.active && was)
            } else {
                !now.entered && !now.left
            }
        }),
{
}

/// Across two consecutive resolutions, whatever activation changes came in
/// between: a state action is `entered` in the second frame exactly when it
/// is active there and was not in the first, and `left` exactly when it was
/// active in the first and is not in the second.
pub proof fn lemma_state_edges_across_frames(
    v1: RouterView,
    raw1: RawDeviceState,
    vp1: Viewport,
    v2: RouterView,
    raw2: RawDeviceState,
    vp2: Viewport,
    i: int,
)
    requires
        v1.wf(),
        v2.wf(),
        v2.frame == v1.resolved(raw1, vp1),
        0 <= i < v1.actions.len(),
        i < v2.actions.len(),
        v2.actions[i].binding is State,
    ensures
        v2.resolved(raw2, vp2)[i].entered == (v2.resolved(raw2, vp2)[i].active && !v1.resolved(
            raw1,
            vp1,
        )[i].active),
        v2.resolved(raw2, vp2)[i].left == (!v2.resolved(raw2, vp2)[i].active && v1.resolved(
            raw1,
            vp1,
        )[i].active),
{
    lemma_state_edges(v2, raw2, vp2, i);
}

/// A trigger action is active exactly when its context takes part, holds the
/// button, and the button is in this frame's newly pressed set.
pub proof fn lemma_trigger_follows_press(
    v: RouterView,
    raw: RawDeviceState,
    vp: Viewport,
    i: int,
    k: Button,
)
    requires
        v.wf(),
        0 <= i < v.actions.len(),
        v.actions[i].binding == Binding::Trigger(k),
    ensures
        v.resolved(raw, vp)[i].active == (v.eligible(v.actions[i].context.index as int)
            && v.claimed(v.actions[i].context.index as int, k) && raw.new_buttons@.contains(k)),
        v.resolved(raw, vp)[i].active ==> raw.new_buttons@.contains(k),
{
}

/// A button held when a frame starts stays held, and is not newly pressed,
/// through every event of that frame that does not release it: the frame
/// start clears the edges, and a press of a held button (key repeat) records
/// nothing.
pub proof fn lemma_hold_is_not_a_new_press(
    prev: RawDeviceState,
    states: Seq<RawDeviceState>,
    events: Seq<ButtonEvent>,
    k: Button,
    n: int,
)
    requires
        prev.active_buttons@.contains(k),
        states.len() == events.len() + 1,
        frame_start_step(prev, states[0]),
        forall|i: int| 0 <= i < events.len() ==> event_step(states[i], states[i + 1], #[trigger] events[i]),
        forall|i: int| 0 <= i < events.len() ==> #[trigger] events[i] != ButtonEvent::Release(k),
        0 <= n < states.len(),
    ensures
        states[n].active_buttons@.contains(k),
        !states[n].new_buttons@.contains(k),
    decreases n,
{
    if n > 0 {
        lemma_hold_is_not_a_new_press(prev, states, events, k, n - 1);
        let e = events[n - 1];
        assert(event_step(states[n - 1], states[n], e));
        match e {
            ButtonEvent::Press(b) => {
                if !states[n - 1].active_buttons@.contains(b) {
                    assert(b != k);
                    assert(states[n].active_buttons@ == states[n - 1].active_buttons@.push(b));
                    let j = choose|j: int|
                        0 <= j < states[n - 1].active_buttons@.len()
                            && #[trigger] states[n - 1].active_buttons@[j] == k;
                    assert(states[n].active_buttons@[j] == k);
                    assert(states[n].new_buttons@ == states[n - 1].new_buttons@.push(b));
                    if states[n].new_buttons@.contains(k) {
                        let m = choose|m: int|
                            0 <= m < states[n].new_buttons@.len() && #[trigger] states[n].new_buttons@[m] == k;
                        assert(m < states[n - 1].new_buttons@.len());
                        assert(states[n - 1].new_buttons@[m] == k);
                    }
                }
            },
            ButtonEvent::Release(b) => {
                assert(b != k);
                assert(states[n].active_buttons@.contains(k));
            },
        }
    }
}

/// A single press-and-hold fires a trigger in one frame only: in the next
/// frame, while the button stays held, the trigger is inactive.
pub proof fn lemma_held_trigger_is_inactive(
    v: RouterView,
    vp: Viewport,
    i: int,
    k: Button,
    prev: RawDeviceState,
    states: Seq<RawDeviceState>,
    events: Seq<ButtonEvent>,
)
    requires
        v.wf(),
        0 <= i < v.actions.len(),
        v.actions[i].binding == Binding::Trigger(k),
        prev.active_buttons@.contains(k),
        states.len() == events.len() + 1,
        frame_start_step(prev, states[0]),
        forall|j: int| 0 <= j < events.len() ==> event_step(states[j], states[j + 1], #[trigger] events[j]),
        forall|j: int| 0 <= j < events.len() ==> #[trigger] events[j] != ButtonEvent::Release(k),
    ensures
        !v.resolved(states.last(), vp)[i].active,
{
    lemma_hold_is_not_a_new_press(prev, states, events, k, states.len() - 1);
}

/// Resolution depends only on the contexts, activation flags, actions and
/// lookback frame: two routers that agree on those produce the same frame
/// from the same raw state and viewport.
pub proof fn lemma_resolution_deterministic(
    v1: RouterView,
    v2: RouterView,
    raw: RawDeviceState,
    vp: Viewport,
)
    requires
        v1.wf(),
        v2.wf(),
        v1.contexts == v2.contexts,
        v1.entered == v2.entered,
        v1.group_active == v2.group_active,
        v1.actions == v2.actions,
        v1.frame == v2.frame,
    ensures
        v1.resolved(raw, vp) == v2.resolved(raw, vp),
{
    assert forall|c: Context, k: Button| v1.declares(c, k) == v2.declares(c, k) by {
        if v1.declares(c, k) {
            let j = choose|j: int|
                0 <= j < c.actions@.len() && #[trigger] claims_button(
                    v1.actions[c.actions@[j].index as int].binding,
                    k,
                );
            assert(claims_button(v2.actions[c.actions@[j].index as int].binding, k));
        }
        if v2.declares(c, k) {
            let j = choose|j: int|
                0 <= j < c.actions@.len() && #[trigger] claims_button(
                    v2.actions[c.actions@[j].index as int].binding,
                    k,
                );
            assert(claims_button(v1.actions[c.actions@[j].index as int].binding, k));
        }
    }
    assert forall|ci: int, k: Button| v1.claimed(ci, k) == v2.claimed(ci, k) by {
        assert forall|j: int| v1.eligible(j) == v2.eligible(j) by {}
        if !v1.claimed(ci, k) {
            let j = choose|j: int|
                0 <= j < v1.contexts.len() && #[trigger] v1.eligible(j) && precedes(
                    v1.contexts[j],
                    j,
                    v1.contexts[ci],
                    ci,
                ) && v1.declares(v1.contexts[j], k);
            assert(v2.eligible(j));
        }
        if !v2.claimed(ci, k) {
            let j = choose|j: int|
                0 <= j < v2.contexts.len() && #[trigger] v2.eligible(j) && precedes(
                    v2.contexts[j],
                    j,
                    v2.contexts[ci],
                    ci,
                ) && v2.declares(v2.contexts[j], k);
            assert(v1.eligible(j));
        }
    }
    assert forall|i: int| 0 <= i < v1.actions.len() implies v1.resolve_action(raw, vp, i)
        == v2.resolve_action(raw, vp, i) by {
        assert(v1.eligible(v1.actions[i].context.index as int) == v2.eligible(
            v2.actions[i].context.index as int,
        ));
    }
    assert(v1.resolved(raw, vp) =~= v2.resolved(raw, vp));
}

/// When two eligible contexts declare a trigger on the same button, the one
/// that resolves first takes the button: the other's trigger is inactive
/// even though the button was pressed, while the first's is active when no
/// eligible context resolving before it declares the button too.
pub proof fn lemma_binding_exclusive(
    v: RouterView,
    raw: RawDeviceState,
    vp: Viewport,
    hi: int,
    lo: int,
    hk: int,
    k: Button,
)
    requires
        v.wf(),
        0 <= hi < v.contexts.len(),
        0 <= hk < v.contexts[hi].actions@.len(),
        0 <= lo < v.actions.len(),
        v.actions[v.contexts[hi].actions@[hk].index as int].binding == Binding::Trigger(k),
        v.actions[lo].binding == Binding::Trigger(k),
        v.eligible(hi),
        v.eligible(v.actions[lo].context.index as int),
        precedes(
            v.contexts[hi],
            hi,
            v.contexts[v.actions[lo].context.index as int],
            v.actions[lo].context.index as int,
        ),
        raw.new_buttons@.contains(k),
    ensures
        !v.resolved(raw, vp)[lo].active,
        v.claimed(hi, k) ==> v.resolved(raw, vp)[v.contexts[hi].actions@[hk].index as int].active,
{
    let a = v.contexts[hi].actions@[hk];
    assert(claims_button(v.actions[v.contexts[hi].actions@[hk].index as int].binding, k));
    assert(v.declares(v.contexts[hi], k));
    assert(v.actions[a.index as int].context.index == hi);
}

/// An action whose context does not take part (not entered, or its group
/// inactive) resolves to the inactive state; a state action may only report
/// `left`, for the frame after it stopped being active.
pub proof fn lemma_ineligible_is_inactive(v: RouterView, raw: RawDeviceState, vp: Viewport, i: int)
    requires
        v.wf(),
        0 <= i < v.actions.len(),
        !v.eligible(v.actions[i].context.index as int),
    ensures
        !(v.actions[i].binding is State) ==> v.resolved(raw, vp)[i] == inactive_state(),
        !v.resolved(raw, vp)[i].active,
        !v.resolved(raw, vp)[i].entered,
        v.resolved(raw, vp)[i].value is None,
{
}

/// In the aspect-preserving and normalized spaces, the centre of a
/// non-empty viewport maps to the origin, whatever its aspect ratio.
pub proof fn lemma_center_maps_to_origin(x: i32, y: i32, vp: Viewport)
    requires
        vp.width > 0,
        vp.height > 0,
        2 * x == vp.width,
        2 * y == vp.height,
    ensures
        position_spec(CoordinateSpace::PreserveAspect, x, y, vp).x.num == 0,
        position_spec(CoordinateSpace::PreserveAspect, x, y, vp).y.num == 0,
        position_spec(CoordinateSpace::Normalized, x, y, vp).x.num == 0,
        position_spec(CoordinateSpace::Normalized, x, y, vp).y.num == 0,
{
}

} // verus!
