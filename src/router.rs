//! Contexts, context groups and the per-frame resolution of actions.
use vstd::prelude::*;

use crate::action::{
    inactive_state, state_of, Action, ActionID, ActionState, Binding, ContextGroupID, ContextID,
    FrameState,
};
use crate::device::{contains_button, Button, RawDeviceState};
use crate::space::{
    delta_spec, position_spec, transform_delta, transform_position, zero, zero_vector,
    CoordinateSpace, Sensitivity, Viewport,
};

verus! {

/// A mutually exclusive activation domain for contexts.
#[derive(Clone, Debug)]
pub struct ContextGroup {
    pub name: String,
    pub id: ContextGroupID,
}

/// A named, prioritised collection of actions. Immutable once built; its
/// activation flag lives in the router.
#[derive(Clone, Debug)]
pub struct Context {
    pub name: String,
    pub id: ContextID,
    /// Higher priorities resolve first.
    pub priority: i32,
    pub group: Option<ContextGroupID>,
    /// The context's actions, in declaration order.
    pub actions: Vec<ActionID>,
}

/// A failed call on the router.
#[derive(Clone, Copy, Debug, PartialEq, Eq, Structural)]
pub enum RouterError {
    /// An identity that this router never handed out.
    UnknownIdentity,
}

/// The context and action identities assigned by a build.
#[derive(Clone, Debug)]
pub struct BuiltContext {
    pub context: ContextID,
    /// One identity per declared action, in declaration order.
    pub actions: Vec<ActionID>,
}

/// Accumulates the declaration of a context; `build` consumes it.
#[derive(Clone, Debug)]
pub struct ContextBuilder {
    pub name: String,
    pub priority: i32,
    pub group: Option<ContextGroupID>,
    /// Declared actions, in declaration order.
    pub decls: Vec<ActionDecl>,
}

/// One declared action of a context under construction.
#[derive(Clone, Debug)]
pub struct ActionDecl {
    pub name: String,
    pub binding: Binding,
}


/// The tables of a router and the last frame it produced.
pub struct RouterView {
    pub groups: Seq<ContextGroup>,
    pub group_active: Seq<bool>,
    pub contexts: Seq<Context>,
    pub entered: Seq<bool>,
    pub actions: Seq<Action>,
    pub frame: Seq<ActionState>,
}

/// Whether binding `b` consumes button `k` exclusively.
pub open spec fn claims_button(b: Binding, k: Button) -> bool {
    b == Binding::Trigger(k) || b == Binding::State(k)
}

/// Whether context `a` (at index `ai`) resolves before context `b` (at `bi`):
/// higher priority first, declaration order among equals.
pub open spec fn precedes(a: Context, ai: int, b: Context, bi: int) -> bool {
    a.priority > b.priority || (a.priority == b.priority && ai < bi)
}

impl RouterView {
    /// The router's tables are consistent: identities index their tables,
    /// group references and action references resolve, and every action
    /// belongs to the context that lists it.
    pub open spec fn wf(self) -> bool {
        &&& self.group_active.len() == self.groups.len()
        &&& self.entered.len() == self.contexts.len()
        &&& forall|g: int| 0 <= g < self.groups.len() ==> (#[trigger] self.groups[g]).id.index == g
        &&& forall|c: int|
            0 <= c < self.contexts.len() ==> {
                &&& (#[trigger] self.contexts[c]).id.index == c
                &&& (self.contexts[c].group matches Some(g) ==> g.index < self.groups.len())
            }
        &&& forall|c: int, k: int|
            0 <= c < self.contexts.len() && 0 <= k < self.contexts[c].actions@.len() ==> {
                let a = #[trigger] self.contexts[c].actions@[k];
                &&& a.index < self.actions.len()
                &&& self.actions[a.index as int].context.index == c
            }
        &&& forall|i: int|
            0 <= i < self.actions.len() ==> (#[trigger] self.actions[i]).context.index
                < self.contexts.len()
    }

    /// Whether group `g` lets its members resolve (no group always does).
    pub open spec fn group_open(self, g: Option<ContextGroupID>) -> bool {
        match g {
            None => true,
            Some(id) => id.index < self.group_active.len() && self.group_active[id.index as int],
        }
    }

    /// Whether context `ci` takes part in resolution: entered, and its group
    /// (if any) active.
    pub open spec fn eligible(self, ci: int) -> bool {
        self.entered[ci] && self.group_open(self.contexts[ci].group)
    }

    /// Whether context `c` declares a trigger or state action on `k`.
    pub open spec fn declares(self, c: Context, k: Button) -> bool {
        exists|j: int|
            0 <= j < c.actions@.len() && #[trigger] claims_button(
                self.actions[c.actions@[j].index as int].binding,
                k,
            )
    }

    /// Whether context `ci` holds button `k` this frame: no eligible context
    /// resolving before it declares a trigger or state action on `k`.
    pub open spec fn claimed(self, ci: int, k: Button) -> bool {
        !exists|j: int|
            0 <= j < self.contexts.len() && #[trigger] self.eligible(j) && precedes(
                self.contexts[j],
                j,
                self.contexts[ci],
                ci,
            ) && self.declares(self.contexts[j], k)
    }

    /// The state of action `i` resolved from `raw`, with the last produced
    /// frame as lookback.
    pub open spec fn resolve_action(self, raw: RawDeviceState, vp: Viewport, i: int) -> ActionState {
        let a = self.actions[i];
        let ci = a.context.index as int;
        let live = self.eligible(ci);
        let was = state_of(self.frame, i).active;
        match a.binding {
            Binding::Trigger(k) => ActionState {
                active: live && self.claimed(ci, k) && raw.new_buttons@.contains(k),
                entered: false,
                left: false,
                value: None,
            },
            Binding::State(k) => {
                let now = live && self.claimed(ci, k) && raw.active_buttons@.contains(k);
                ActionState { active: now, entered: now && !was, left: !now && was, value: None }
            },
            Binding::Mouse { sensitivity, space } => if live {
                ActionState {
                    active: raw.mouse_delta is Some,
                    entered: false,
                    left: false,
                    value: Some(
                        match raw.mouse_delta {
                            Some(d) => delta_spec(space, d.x, d.y, sensitivity, vp),
                            None => zero_vector(),
                        },
                    ),
                }
            } else {
                inactive_state()
            },
            Binding::Pointer { space } => match raw.mouse_absolute {
                Some(p) if live => ActionState {
                    active: true,
                    entered: false,
                    left: false,
                    value: Some(position_spec(space, p.x, p.y, vp)),
                },
                _ => inactive_state(),
            },
        }
    }

    /// The frame that resolution of `raw` produces.
    pub open spec fn resolved(self, raw: RawDeviceState, vp: Viewport) -> Seq<ActionState> {
        Seq::new(self.actions.len(), |i: int| self.resolve_action(raw, vp, i))
    }
}

impl ContextBuilder {
    /// Adds a trigger action on `button`.
    pub fn new_trigger(&mut self, name: &str, button: Button)
        ensures
            final(self).decls@ == old(self).decls@.push(
                ActionDecl { name: final(self).decls@.last().name, binding: Binding::Trigger(button) },
            ),
            final(self).decls@.last().name@ == name@,
            final(self).name == old(self).name,
            final(self).priority == old(self).priority,
            final(self).group == old(self).group,
    {
        self.add(name, Binding::Trigger(button));
    }

    /// Adds a state action on `button`.
    pub fn new_state(&mut self, name: &str, button: Button)
        ensures
            final(self).decls@ == old(self).decls@.push(
                ActionDecl { name: final(self).decls@.last().name, binding: Binding::State(button) },
            ),
            final(self).decls@.last().name@ == name@,
            final(self).name == old(self).name,
            final(self).priority == old(self).priority,
            final(self).group == old(self).group,
    {
        self.add(name, Binding::State(button));
    }

    /// Adds a mouse-delta action.
    pub fn new_mouse(&mut self, name: &str, space: CoordinateSpace, sensitivity: Sensitivity)
        ensures
            final(self).decls@ == old(self).decls@.push(
                ActionDecl { name: final(self).decls@.last().name, binding: Binding::Mouse { sensitivity, space } },
            ),
            final(self).decls@.last().name@ == name@,
            final(self).name == old(self).name,
            final(self).priority == old(self).priority,
            final(self).group == old(self).group,
    {
        self.add(name, Binding::Mouse { sensitivity, space });
    }

    /// Adds a pointer (absolute position) action.
    pub fn new_pointer(&mut self, name: &str, space: CoordinateSpace)
        ensures
            final(self).decls@ == old(self).decls@.push(
                ActionDecl { name: final(self).decls@.last().name, binding: Binding::Pointer { space } },
            ),
            final(self).decls@.last().name@ == name@,
            final(self).name == old(self).name,
            final(self).priority == old(self).priority,
            final(self).group == old(self).group,
    {
        self.add(name, Binding::Pointer { space });
    }

    fn add(&mut self, name: &str, binding: Binding)
        ensures
            final(self).decls@ == old(self).decls@.push(ActionDecl { name: final(self).decls@.last().name, binding }),
            final(self).decls@.last().name@ == name@,
            final(self).name == old(self).name,
            final(self).priority == old(self).priority,
            final(self).group == old(self).group,
    {
        proof {
            broadcast use vstd::string::to_string_from_display_ensures_for_str;
        }
        self.decls.push(ActionDecl { name: name.to_string(), binding });
    }

    /// Makes the context a member of `group`.
    pub fn set_context_group(&mut self, group: ContextGroupID)
        ensures
            final(self).group == Some(group),
            final(self).name == old(self).name,
            final(self).priority == old(self).priority,
            final(self).decls@ == old(self).decls@,
    {
        self.group = Some(group);
    }

    /// Sets the context's priority.
    pub fn set_priority(&mut self, priority: i32)
        ensures
            final(self).priority == priority,
            final(self).name == old(self).name,
            final(self).group == old(self).group,
            final(self).decls@ == old(self).decls@,
    {
        self.priority = priority;
    }

    /// Registers the declared context and its actions with `router`.
    pub fn build(self, router: &mut InputRouter) -> (r: Result<BuiltContext, RouterError>)
        requires
            old(router)@.wf(),
        ensures
            final(router)@.wf(),
            build_outcome(old(router)@, final(router)@, self, r),
    {
        router.build_context(self)
    }
}

/// What building `b` into a router with tables `pre` does, giving `post` and `r`.
pub open spec fn build_outcome(
    pre: RouterView,
    post: RouterView,
    b: ContextBuilder,
    r: Result<BuiltContext, RouterError>,
) -> bool {
    let unknown_group = b.group matches Some(g) && g.index >= pre.groups.len();
    let n = pre.actions.len() as int;
    let ci = pre.contexts.len() as int;
    &&& (r is Err <==> unknown_group)
    &&& (r matches Err(e) ==> e == RouterError::UnknownIdentity && post == pre)
    &&& (r matches Ok(built) ==> {
        &&& built.context.index == ci
        &&& built.actions@.len() == b.decls@.len()
        &&& forall|k: int| 0 <= k < built.actions@.len() ==> (#[trigger] built.actions@[k]).index == n + k
        &&& post.groups == pre.groups
        &&& post.group_active == pre.group_active
        &&& post.frame == pre.frame
        &&& post.entered == pre.entered.push(false)
        &&& post.contexts.len() == ci + 1
        &&& post.contexts.subrange(0, ci) == pre.contexts
        &&& post.contexts[ci].id == built.context
        &&& post.contexts[ci].name == b.name
        &&& post.contexts[ci].priority == b.priority
        &&& post.contexts[ci].group == b.group
        &&& post.contexts[ci].actions@ == built.actions@
        &&& post.actions.len() == n + b.decls@.len()
        &&& post.actions.subrange(0, n) == pre.actions
        &&& forall|i: int| n <= i < post.actions.len() ==> {
            &&& (#[trigger] post.actions[i]).binding == b.decls@[i - n].binding
            &&& post.actions[i].name == b.decls@[i - n].name
            &&& post.actions[i].context == built.context
        }
    })
}

/// Owns all context groups, contexts and actions, and resolves raw device
/// state into frames.
pub struct InputRouter {
    groups: Vec<ContextGroup>,
    group_active: Vec<bool>,
    contexts: Vec<Context>,
    entered: Vec<bool>,
    actions: Vec<Action>,
    frame: FrameState,
}

impl View for InputRouter {
    type V = RouterView;

    closed spec fn view(&self) -> RouterView {
        RouterView {
            groups: self.groups@,
            group_active: self.group_active@,
            contexts: self.contexts@,
            entered: self.entered@,
            actions: self.actions@,
            frame: self.frame@,
        }
    }
}

impl InputRouter {
    /// A router with nothing registered and an empty lookback frame.
    pub fn new() -> (r: InputRouter)
        ensures
            r@.wf(),
            r@.groups.len() == 0,
            r@.contexts.len() == 0,
            r@.actions.len() == 0,
            r@.frame.len() == 0,
    {
        let r = InputRouter {
            groups: Vec::new(),
            group_active: Vec::new(),
            contexts: Vec::new(),
            entered: Vec::new(),
            actions: Vec::new(),
            frame: FrameState::empty(),
        };
        r
    }

    /// Creates a context group, initially active.
    pub fn new_context_group(&mut self, name: &str) -> (r: ContextGroupID)
        requires
            old(self)@.wf(),
        ensures
            final(self)@.wf(),
            r.index == old(self)@.groups.len(),
            final(self)@.groups.len() == old(self)@.groups.len() + 1,
            final(self)@.groups.subrange(0, r.index as int) == old(self)@.groups,
            final(self)@.groups[r.index as int].id == r,
            final(self)@.groups[r.index as int].name@ == name@,
            final(self)@.group_active == old(self)@.group_active.push(true),
            final(self)@.contexts == old(self)@.contexts,
            final(self)@.entered == old(self)@.entered,
            final(self)@.actions == old(self)@.actions,
            final(self)@.frame == old(self)@.frame,
    {
        proof {
            broadcast use vstd::string::to_string_from_display_ensures_for_str;
        }
        let id = ContextGroupID { index: self.groups.len() };
        self.groups.push(ContextGroup { name: name.to_string(), id });
        self.group_active.push(true);
        assert(self@.groups.subrange(0, id.index as int) =~= old(self)@.groups);
        id
    }

    /// Starts the declaration of a context named `name`, at priority 0 and in
    /// no group.
    pub fn new_context(&self, name: &str) -> (r: ContextBuilder)
        ensures
            r.name@ == name@,
            r.priority == 0,
            r.group is None,
            r.decls@.len() == 0,
    {
        proof {
            broadcast use vstd::string::to_string_from_display_ensures_for_str;
        }
        ContextBuilder {
            name: name.to_string(),
            priority: 0,
            group: None,
            decls: Vec::new(),
        }
    }

    fn build_context(&mut self, b: ContextBuilder) -> (r: Result<BuiltContext, RouterError>)
        requires
            old(self)@.wf(),
        ensures
            final(self)@.wf(),
            build_outcome(old(self)@, final(self)@, b, r),
    {
        if let Some(g) = b.group {
            if g.index >= self.groups.len() {
                return Err(RouterError::UnknownIdentity);
            }
        }
        let ghost pre = self@;
        let ci = self.contexts.len();
        let cid = ContextID { index: ci };
        let n = self.actions.len();
        let mut ids: Vec<ActionID> = Vec::new();
        let mut k: usize = 0;
        while k < b.decls.len()
            invariant
                pre.wf(),
                    ci == pre.contexts.len(),
                n == pre.actions.len(),
                cid.index == ci,
                k <= b.decls@.len(),
                self@.groups == pre.groups,
                self@.group_active == pre.group_active,
                self@.contexts == pre.contexts,
                self@.entered == pre.entered,
                self@.frame == pre.frame,
                self@.actions.len() == n + k,
                self@.actions.subrange(0, n as int) == pre.actions,
                ids@.len() == k,
                forall|j: int| 0 <= j < k ==> (#[trigger] ids@[j]).index == n + j,
                forall|i: int|
                    n <= i < n + k ==> {
                        &&& (#[trigger] self@.actions[i]).binding == b.decls@[i - n].binding
                        &&& self@.actions[i].name == b.decls@[i - n].name
                        &&& self@.actions[i].context == cid
                    },
            decreases b.decls@.len() - k,
        {
            let id = ActionID { index: self.actions.len() };
            self.actions.push(
                Action { name: b.decls[k].name.clone(), binding: b.decls[k].binding, context: cid },
            );
            ids.push(id);
            k += 1;
            assert(self@.actions.subrange(0, n as int) =~= pre.actions);
        }
        let built_ids = copy_ids(&ids);
        self.contexts.push(
            Context { name: b.name, id: cid, priority: b.priority, group: b.group, actions: ids },
        );
        self.entered.push(false);
        let built = BuiltContext { context: cid, actions: built_ids };
        assert(self@.contexts.subrange(0, ci as int) =~= pre.contexts);
        assert forall|c: int, j: int|
            0 <= c < self@.contexts.len() && 0 <= j
                < self@.contexts[c].actions@.len() implies ({
                let a = #[trigger] self@.contexts[c].actions@[j];
                &&& a.index < self@.actions.len()
                &&& self@.actions[a.index as int].context.index == c
            }) by {
            if c < ci {
                let a = self@.contexts[c].actions@[j];
                assert(pre.contexts[c] == self@.contexts[c]);
                assert(pre.actions[a.index as int] == self@.actions.subrange(0, n as int)[a.index as int]);
            } else {
                let a = self@.contexts[c].actions@[j];
                assert(a == ids@[j]);
                assert(self@.actions[a.index as int].context == cid);
            }
        }
        assert forall|i: int| 0 <= i < self@.actions.len() implies (#[trigger] self@.actions[i]).context.index
            < self@.contexts.len() by {
            if i < n {
                assert(pre.actions[i] == self@.actions.subrange(0, n as int)[i]);
            } else {
                assert(self@.actions[i].context == cid);
            }
        }
        Ok(built)
    }

    /// Sets whether a context is entered; takes effect from the next
    /// resolution.
    pub fn set_context_active(&mut self, id: ContextID, active: bool) -> (r: Result<(), RouterError>)
        requires
            old(self)@.wf(),
        ensures
            final(self)@.wf(),
            r is Ok <==> id.index < old(self)@.contexts.len(),
            r matches Err(e) ==> e == RouterError::UnknownIdentity,
            final(self)@.entered == if r is Ok {
                old(self)@.entered.update(id.index as int, active)
            } else {
                old(self)@.entered
            },
            final(self)@.groups == old(self)@.groups,
            final(self)@.group_active == old(self)@.group_active,
            final(self)@.contexts == old(self)@.contexts,
            final(self)@.actions == old(self)@.actions,
            final(self)@.frame == old(self)@.frame,
    {
        if id.index >= self.entered.len() {
            return Err(RouterError::UnknownIdentity);
        }
        self.entered.set(id.index, active);
        Ok(())
    }

    /// Enters a context (makes it active).
    pub fn enter_context(&mut self, id: ContextID) -> (r: Result<(), RouterError>)
        requires
            old(self)@.wf(),
        ensures
            final(self)@.wf(),
            r is Ok <==> id.index < old(self)@.contexts.len(),
            r matches Err(e) ==> e == RouterError::UnknownIdentity,
            final(self)@.entered == if r is Ok {
                old(self)@.entered.update(id.index as int, true)
            } else {
                old(self)@.entered
            },
            final(self)@.groups == old(self)@.groups,
            final(self)@.group_active == old(self)@.group_active,
            final(self)@.contexts == old(self)@.contexts,
            final(self)@.actions == old(self)@.actions,
            final(self)@.frame == old(self)@.frame,
    {
        self.set_context_active(id, true)
    }

    /// Sets whether a context group is active; takes effect from the next
    /// resolution.
    pub fn set_context_group_active(&mut self, id: ContextGroupID, active: bool) -> (r: Result<(), RouterError>)
        requires
            old(self)@.wf(),
        ensures
            final(self)@.wf(),
            r is Ok <==> id.index < old(self)@.groups.len(),
            r matches Err(e) ==> e == RouterError::UnknownIdentity,
            final(self)@.group_active == if r is Ok {
                old(self)@.group_active.update(id.index as int, active)
            } else {
                old(self)@.group_active
            },
            final(self)@.groups == old(self)@.groups,
            final(self)@.contexts == old(self)@.contexts,
            final(self)@.entered == old(self)@.entered,
            final(self)@.actions == old(self)@.actions,
            final(self)@.frame == old(self)@.frame,
    {
        if id.index >= self.group_active.len() {
            return Err(RouterError::UnknownIdentity);
        }
        self.group_active.set(id.index, active);
        Ok(())
    }

    /// Whether a context is entered, as last set.
    pub fn is_context_active(&self, id: ContextID) -> (r: Result<bool, RouterError>)
        requires
            self@.wf(),
        ensures
            r is Ok <==> id.index < self@.contexts.len(),
            r matches Ok(b) ==> b == self@.entered[id.index as int],
            r matches Err(e) ==> e == RouterError::UnknownIdentity,
    {
        if id.index >= self.entered.len() {
            return Err(RouterError::UnknownIdentity);
        }
        Ok(self.entered[id.index])
    }

    /// Whether a context group is active, as last set.
    pub fn is_context_group_active(&self, id: ContextGroupID) -> (r: Result<bool, RouterError>)
        requires
            self@.wf(),
        ensures
            r is Ok <==> id.index < self@.groups.len(),
            r matches Ok(b) ==> b == self@.group_active[id.index as int],
            r matches Err(e) ==> e == RouterError::UnknownIdentity,
    {
        if id.index >= self.group_active.len() {
            return Err(RouterError::UnknownIdentity);
        }
        Ok(self.group_active[id.index])
    }

    /// The last frame produced (empty before the first resolution).
    pub fn frame_state(&self) -> (r: &FrameState)
        ensures
            r@ == self@.frame,
    {
        &self.frame
    }

    /// All contexts, in declaration order.
    pub fn contexts(&self) -> (r: &[Context])
        ensures
            r@ == self@.contexts,
    {
        self.contexts.as_slice()
    }

    /// All context groups, in creation order.
    pub fn context_groups(&self) -> (r: &[ContextGroup])
        ensures
            r@ == self@.groups,
    {
        self.groups.as_slice()
    }

    /// The context with identity `id`, if there is one.
    pub fn context(&self, id: ContextID) -> (r: Option<&Context>)
        ensures
            r is Some <==> id.index < self@.contexts.len(),
            r matches Some(c) ==> *c == self@.contexts[id.index as int],
    {
        if id.index < self.contexts.len() {
            Some(&self.contexts[id.index])
        } else {
            None
        }
    }

    /// The action with identity `id`, if there is one.
    pub fn action(&self, id: ActionID) -> (r: Option<&Action>)
        ensures
            r is Some <==> id.index < self@.actions.len(),
            r matches Some(a) ==> *a == self@.actions[id.index as int],
    {
        if id.index < self.actions.len() {
            Some(&self.actions[id.index])
        } else {
            None
        }
    }

    fn eligible(&self, ci: usize) -> (r: bool)
        requires
            self@.wf(),
            ci < self@.contexts.len(),
        ensures
            r == self@.eligible(ci as int),
    {
        if !self.entered[ci] {
            return false;
        }
        match self.contexts[ci].group {
            None => true,
            Some(g) => self.group_active[g.index],
        }
    }

    fn declares(&self, ci: usize, k: Button) -> (r: bool)
        requires
            self@.wf(),
            ci < self@.contexts.len(),
        ensures
            r == self@.declares(self@.contexts[ci as int], k),
    {
        let c = &self.contexts[ci];
        let mut j: usize = 0;
        while j < c.actions.len()
            invariant
                self@.wf(),
                ci < self@.contexts.len(),
                *c == self@.contexts[ci as int],
                j <= c.actions@.len(),
                forall|jj: int|
                    0 <= jj < j ==> !#[trigger] claims_button(
                        self@.actions[c.actions@[jj].index as int].binding,
                        k,
                    ),
            decreases c.actions@.len() - j,
        {
            let a = &self.actions[c.actions[j].index];
            let hit = match a.binding {
                Binding::Trigger(b) => b == k,
                Binding::State(b) => b == k,
                _ => false,
            };
            if hit {
                assert(claims_button(self@.actions[c.actions@[j as int].index as int].binding, k));
                return true;
            }
            j += 1;
        }
        false
    }

    fn claimed(&self, ci: usize, k: Button) -> (r: bool)
        requires
            self@.wf(),
            ci < self@.contexts.len(),
        ensures
            r == self@.claimed(ci as int, k),
    {
        let me = self.contexts[ci].priority;
        let mut j: usize = 0;
        while j < self.contexts.len()
            invariant
                self@.wf(),
                ci < self@.contexts.len(),
                me == self@.contexts[ci as int].priority,
                j <= self@.contexts.len(),
                forall|jj: int|
                    0 <= jj < j ==> !(#[trigger] self@.eligible(jj) && precedes(
                        self@.contexts[jj],
                        jj,
                        self@.contexts[ci as int],
                        ci as int,
                    ) && self@.declares(self@.contexts[jj], k)),
            decreases self@.contexts.len() - j,
        {
            let p = self.contexts[j].priority;
            if (p > me || (p == me && j < ci)) && self.eligible(j) && self.declares(j, k) {
                assert(self@.eligible(j as int));
                return false;
            }
            j += 1;
        }
        true
    }

    fn resolve_one(&self, raw: &RawDeviceState, vp: Viewport, i: usize) -> (r: ActionState)
        requires
            self@.wf(),
            i < self@.actions.len(),
        ensures
            r == self@.resolve_action(*raw, vp, i as int),
    {
        let a = &self.actions[i];
        let ci = a.context.index;
        let live = self.eligible(ci);
        let was = self.frame.active(ActionID { index: i });
        match a.binding {
            Binding::Trigger(k) => {
                let active = live && self.claimed(ci, k) && contains_button(&raw.new_buttons, k);
                ActionState { active, entered: false, left: false, value: None }
            },
            Binding::State(k) => {
                let now = live && self.claimed(ci, k) && contains_button(&raw.active_buttons, k);
                ActionState { active: now, entered: now && !was, left: !now && was, value: None }
            },
            Binding::Mouse { sensitivity, space } => {
                if live {
                    match raw.mouse_delta {
                        Some(d) => ActionState {
                            active: true,
                            entered: false,
                            left: false,
                            value: Some(transform_delta(space, d.x, d.y, sensitivity, vp)),
                        },
                        None => ActionState {
                            active: false,
                            entered: false,
                            left: false,
                            value: Some(zero()),
                        },
                    }
                } else {
                    ActionState { active: false, entered: false, left: false, value: None }
                }
            },
            Binding::Pointer { space } => {
                match raw.mouse_absolute {
                    Some(p) => {
                        if live {
                            ActionState {
                                active: true,
                                entered: false,
                                left: false,
                                value: Some(transform_position(space, p.x, p.y, vp)),
                            }
                        } else {
                            ActionState { active: false, entered: false, left: false, value: None }
                        }
                    },
                    None => ActionState { active: false, entered: false, left: false, value: None },
                }
            },
        }
    }

    /// Resolves one frame of raw input into a new frame state, which also
    /// becomes the lookback for the next resolution. Only the lookback
    /// changes: tables and activation flags are left as they are.
    pub fn resolve(&mut self, raw: &RawDeviceState, vp: Viewport) -> (r: FrameState)
        requires
            old(self)@.wf(),
        ensures
            final(self)@.wf(),
            r@ == old(self)@.resolved(*raw, vp),
            final(self)@ == (RouterView { frame: r@, ..old(self)@ }),
    {
        let mut states: Vec<ActionState> = Vec::new();
        let mut i: usize = 0;
        while i < self.actions.len()
            invariant
                self@.wf(),
                i <= self@.actions.len(),
                states@.len() == i,
                forall|j: int| 0 <= j < i ==> states@[j] == #[trigger] self@.resolve_action(*raw, vp, j),
            decreases self@.actions.len() - i,
        {
            let s = self.resolve_one(raw, vp, i);
            states.push(s);
            i += 1;
        }
        assert(states@ =~= self@.resolved(*raw, vp));
        let out = FrameState::from_states(states);
        self.frame = out.snapshot();
        out
    }
}

fn copy_ids(v: &Vec<ActionID>) -> (r: Vec<ActionID>)
    ensures
        r@ == v@,
{
    let mut out: Vec<ActionID> = Vec::new();
    let mut i: usize = 0;
    while i < v.len()
        invariant
            i <= v.len(),
            out@ == v@.subrange(0, i as int),
        decreases v.len() - i,
    {
        out.push(v[i]);
        i += 1;
        assert(out@ =~= v@.subrange(0, i as int));
    }
    assert(out@ =~= v@);
    out
}

} // verus!
