//! Actions, their identities, and the per-frame resolved state.
use vstd::prelude::*;

use crate::device::Button;
use crate::space::{CoordinateSpace, Sensitivity, Vector2};

verus! {

/// Identity of an action, unique for the life of its router.
#[derive(Clone, Copy, Debug, PartialEq, Eq, Structural, Hash)]
pub struct ActionID {
    pub index: usize,
}

/// Identity of a context.
#[derive(Clone, Copy, Debug, PartialEq, Eq, Structural, Hash)]
pub struct ContextID {
    pub index: usize,
}

/// Identity of a context group.
#[derive(Clone, Copy, Debug, PartialEq, Eq, Structural, Hash)]
pub struct ContextGroupID {
    pub index: usize,
}

/// The four kinds of action.
#[derive(Clone, Copy, Debug, PartialEq, Eq, Structural)]
pub enum ActionKind {
    Trigger,
    State,
    Mouse,
    Pointer,
}

/// What an action is bound to, and how it is interpreted.
#[derive(Clone, Copy, Debug, PartialEq, Eq, Structural)]
pub enum Binding {
    /// Active in the frames in which the button is newly pressed.
    Trigger(Button),
    /// Active while the button is held, with edges on the first frame of a
    /// hold and the first frame after it.
    State(Button),
    /// The mouse delta, scaled and mapped into a space.
    Mouse { sensitivity: Sensitivity, space: CoordinateSpace },
    /// The absolute mouse position mapped into a space.
    Pointer { space: CoordinateSpace },
}

/// The kind of action a binding makes.
pub open spec fn kind_of(b: Binding) -> ActionKind {
    match b {
        Binding::Trigger(_) => ActionKind::Trigger,
        Binding::State(_) => ActionKind::State,
        Binding::Mouse { .. } => ActionKind::Mouse,
        Binding::Pointer { .. } => ActionKind::Pointer,
    }
}

impl Binding {
    /// The kind of action this binding makes.
    pub fn kind(&self) -> (r: ActionKind)
        ensures
            r == kind_of(*self),
    {
        match self {
            Binding::Trigger(_) => ActionKind::Trigger,
            Binding::State(_) => ActionKind::State,
            Binding::Mouse { .. } => ActionKind::Mouse,
            Binding::Pointer { .. } => ActionKind::Pointer,
        }
    }
}

/// A registered action: a display name, a binding, and its owning context.
#[derive(Clone, Debug)]
pub struct Action {
    pub name: String,
    pub binding: Binding,
    pub context: ContextID,
}

/// The resolved state of one action in one frame.
#[derive(Clone, Copy, Debug, PartialEq, Eq, Structural)]
pub struct ActionState {
    /// Trigger: newly pressed; state: held; mouse: a delta was reported;
    /// pointer: a position was reported. Always false when the action's
    /// context did not take part or lost its button to another context.
    pub active: bool,
    /// State actions only: active now and not in the previous frame.
    pub entered: bool,
    /// State actions only: active in the previous frame and not now.
    pub left: bool,
    /// Mouse and pointer actions only: the mapped value.
    pub value: Option<Vector2>,
}

/// The state of an action that did not resolve.
pub open spec fn inactive_state() -> ActionState {
    ActionState { active: false, entered: false, left: false, value: None }
}

/// The state of action `i` in the frame `f`; an action the frame does not
/// cover (not yet registered when it was produced) is inactive.
pub open spec fn state_of(f: Seq<ActionState>, i: int) -> ActionState {
    if 0 <= i < f.len() {
        f[i]
    } else {
        inactive_state()
    }
}

/// The resolved action states of one frame, indexed by action identity.
#[derive(Clone, Debug)]
pub struct FrameState {
    states: Vec<ActionState>,
}

impl View for FrameState {
    type V = Seq<ActionState>;

    closed spec fn view(&self) -> Seq<ActionState> {
        self.states@
    }
}

impl FrameState {
    /// A frame in which nothing is active.
    pub fn empty() -> (r: FrameState)
        ensures
            r@ == Seq::<ActionState>::empty(),
    {
        FrameState { states: Vec::new() }
    }

    pub(crate) fn from_states(states: Vec<ActionState>) -> (r: FrameState)
        ensures
            r@ == states@,
    {
        FrameState { states }
    }

    /// An equal copy of this frame.
    pub fn snapshot(&self) -> (r: FrameState)
        ensures
            r@ == self@,
    {
        let mut v: Vec<ActionState> = Vec::new();
        let mut i: usize = 0;
        while i < self.states.len()
            invariant
                i <= self.states.len(),
                v@ == self.states@.subrange(0, i as int),
            decreases self.states.len() - i,
        {
            v.push(self.states[i]);
            i += 1;
            assert(v@ =~= self.states@.subrange(0, i as int));
        }
        assert(v@ =~= self.states@);
        FrameState { states: v }
    }

    /// Number of actions this frame covers.
    pub fn len(&self) -> (r: usize)
        ensures
            r == self@.len(),
    {
        self.states.len()
    }

    /// The full resolved state of an action; inactive for an unknown one.
    pub fn state(&self, id: ActionID) -> (r: ActionState)
        ensures
            r == state_of(self@, id.index as int),
    {
        if id.index < self.states.len() {
            self.states[id.index]
        } else {
            ActionState { active: false, entered: false, left: false, value: None }
        }
    }

    /// Whether the action is active this frame; false for an unknown or
    /// unresolved action.
    pub fn active(&self, id: ActionID) -> (r: bool)
        ensures
            r == state_of(self@, id.index as int).active,
    {
        self.state(id).active
    }

    /// Whether a state action began being held this frame.
    pub fn entered(&self, id: ActionID) -> (r: bool)
        ensures
            r == state_of(self@, id.index as int).entered,
    {
        self.state(id).entered
    }

    /// Whether a state action stopped being held this frame.
    pub fn left(&self, id: ActionID) -> (r: bool)
        ensures
            r == state_of(self@, id.index as int).left,
    {
        self.state(id).left
    }

    /// The value of a mouse or pointer action; `None` for other kinds, for
    /// unresolved actions and for a pointer with no position this frame.
    pub fn mouse(&self, id: ActionID) -> (r: Option<Vector2>)
        ensures
            r == state_of(self@, id.index as int).value,
    {
        self.state(id).value
    }
}

} // verus!
