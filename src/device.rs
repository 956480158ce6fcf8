//! Physical buttons and the raw per-frame device snapshot.
use vstd::prelude::*;

verus! {

/// A physical mouse button.
#[derive(Clone, Copy, Debug, PartialEq, Eq, Structural)]
pub enum MouseButton {
    Left,
    Middle,
    Right,
    Back,
    Forward,
}

/// A physical key (by scancode) or mouse button.
#[derive(Clone, Copy, Debug, PartialEq, Eq, Structural)]
pub enum Button {
    Key(u32),
    Mouse(MouseButton),
}

/// An integer pixel position or delta.
#[derive(Clone, Copy, Debug, PartialEq, Eq, Structural)]
pub struct Vec2i {
    pub x: i32,
    pub y: i32,
}

/// One frame's snapshot of physical input.
#[derive(Clone, Debug)]
pub struct RawDeviceState {
    /// Absolute mouse position, absent while the pointer is not over the window.
    pub mouse_absolute: Option<Vec2i>,
    /// Mouse motion since the previous frame, if any was reported.
    pub mouse_delta: Option<Vec2i>,
    /// Wheel motion since the previous frame, if any was reported.
    pub wheel_delta: Option<i32>,
    /// Buttons currently held.
    pub active_buttons: Vec<Button>,
    /// Buttons pressed during this frame.
    pub new_buttons: Vec<Button>,
    /// Buttons released during this frame.
    pub released_buttons: Vec<Button>,
}

/// Whether `b` occurs in `v`.
pub fn contains_button(v: &Vec<Button>, b: Button) -> (r: bool)
    ensures
        r == v@.contains(b),
{
    let mut i: usize = 0;
    while i < v.len()
        invariant
            i <= v.len(),
            forall|j: int| 0 <= j < i ==> v@[j] != b,
        decreases v.len() - i,
    {
        if v[i] == b {
            assert(v@[i as int] == b);
            return true;
        }
        i += 1;
    }
    false
}

/// A change of one button reported by the device layer.
#[derive(Clone, Copy, Debug, PartialEq, Eq, Structural)]
pub enum ButtonEvent {
    Press(Button),
    Release(Button),
}

/// What a press of `b` does: a button not yet held becomes held and is
/// recorded as newly pressed; a press of a held button (key repeat) changes
/// nothing.
pub open spec fn press_step(pre: RawDeviceState, post: RawDeviceState, b: Button) -> bool {
    &&& post.mouse_absolute == pre.mouse_absolute
    &&& post.mouse_delta == pre.mouse_delta
    &&& post.wheel_delta == pre.wheel_delta
    &&& post.released_buttons@ == pre.released_buttons@
    &&& if pre.active_buttons@.contains(b) {
        &&& post.active_buttons@ == pre.active_buttons@
        &&& post.new_buttons@ == pre.new_buttons@
    } else {
        &&& post.active_buttons@ == pre.active_buttons@.push(b)
        &&& post.new_buttons@ == pre.new_buttons@.push(b)
    }
}

/// What a release of `b` does: a held button stops being held and is
/// recorded as released; releasing a button not held changes nothing.
pub open spec fn release_step(pre: RawDeviceState, post: RawDeviceState, b: Button) -> bool {
    &&& post.mouse_absolute == pre.mouse_absolute
    &&& post.mouse_delta == pre.mouse_delta
    &&& post.wheel_delta == pre.wheel_delta
    &&& post.new_buttons@ == pre.new_buttons@
    &&& forall|x: Button| #[trigger]
        post.active_buttons@.contains(x) <==> (pre.active_buttons@.contains(x) && x != b)
    &&& if pre.active_buttons@.contains(b) {
        post.released_buttons@ == pre.released_buttons@.push(b)
    } else {
        post.released_buttons@ == pre.released_buttons@
    }
}

/// The effect of event `e`.
pub open spec fn event_step(pre: RawDeviceState, post: RawDeviceState, e: ButtonEvent) -> bool {
    match e {
        ButtonEvent::Press(b) => press_step(pre, post, b),
        ButtonEvent::Release(b) => release_step(pre, post, b),
    }
}

/// The start of a frame: edges and relative motion are cleared, held buttons
/// and the absolute position carry over.
pub open spec fn frame_start_step(pre: RawDeviceState, post: RawDeviceState) -> bool {
    &&& post.mouse_absolute == pre.mouse_absolute
    &&& post.mouse_delta is None
    &&& post.wheel_delta is None
    &&& post.active_buttons@ == pre.active_buttons@
    &&& post.new_buttons@.len() == 0
    &&& post.released_buttons@.len() == 0
}

/// `a + b`, clamped to the range of `i32`.
pub open spec fn saturating_sum(a: i32, b: i32) -> i32 {
    let s = a + b;
    if s > i32::MAX {
        i32::MAX
    } else if s < i32::MIN {
        i32::MIN
    } else {
        s as i32
    }
}

/// Adds two values, clamping at the bounds of `i32`.
pub fn add_saturating(a: i32, b: i32) -> (r: i32)
    ensures
        r == saturating_sum(a, b),
{
    let s = a as i64 + b as i64;
    if s > i32::MAX as i64 {
        i32::MAX
    } else if s < i32::MIN as i64 {
        i32::MIN
    } else {
        s as i32
    }
}

/// Motion accumulated in one frame: `d` added to what was reported so far.
pub open spec fn accumulated(so_far: Option<Vec2i>, d: Vec2i) -> Vec2i {
    match so_far {
        None => d,
        Some(p) => Vec2i { x: saturating_sum(p.x, d.x), y: saturating_sum(p.y, d.y) },
    }
}

impl RawDeviceState {
    /// A device with nothing held, no pointer position and no motion.
    pub fn new() -> (r: RawDeviceState)
        ensures
            r.mouse_absolute is None,
            r.mouse_delta is None,
            r.wheel_delta is None,
            r.active_buttons@.len() == 0,
            r.new_buttons@.len() == 0,
            r.released_buttons@.len() == 0,
    {
        RawDeviceState {
            mouse_absolute: None,
            mouse_delta: None,
            wheel_delta: None,
            active_buttons: Vec::new(),
            new_buttons: Vec::new(),
            released_buttons: Vec::new(),
        }
    }

    /// Clears this frame's edges and relative motion before a new frame's
    /// events arrive.
    pub fn begin_frame(&mut self)
        ensures
            frame_start_step(*old(self), *final(self)),
    {
        self.mouse_delta = None;
        self.wheel_delta = None;
        self.new_buttons = Vec::new();
        self.released_buttons = Vec::new();
    }

    /// Records a press of `b`.
    pub fn press(&mut self, b: Button)
        ensures
            press_step(*old(self), *final(self), b),
    {
        if !contains_button(&self.active_buttons, b) {
            self.active_buttons.push(b);
            self.new_buttons.push(b);
        }
    }

    /// Records a release of `b`.
    pub fn release(&mut self, b: Button)
        ensures
            release_step(*old(self), *final(self), b),
    {
        let held = contains_button(&self.active_buttons, b);
        let mut kept: Vec<Button> = Vec::new();
        let mut i: usize = 0;
        while i < self.active_buttons.len()
            invariant
                i <= self.active_buttons.len(),
                forall|m: int|
                    0 <= m < kept@.len() ==> #[trigger] kept@[m] != b
                        && self.active_buttons@.contains(kept@[m]),
                forall|j: int|
                    0 <= j < i && #[trigger] self.active_buttons@[j] != b ==> kept@.contains(
                        self.active_buttons@[j],
                    ),
            decreases self.active_buttons.len() - i,
        {
            let x = self.active_buttons[i];
            let ghost before = kept@;
            if x != b {
                kept.push(x);
                proof {
                    assert(kept@[kept@.len() - 1] == x);
                    assert forall|j: int|
                        0 <= j < i && #[trigger] self.active_buttons@[j] != b implies kept@.contains(
                            self.active_buttons@[j],
                        ) by {
                        let m = choose|m: int| 0 <= m < before.len() && before[m] == self.active_buttons@[j];
                        assert(kept@[m] == before[m]);
                    }
                    assert(self.active_buttons@[i as int] == x);
                }
            }
            i += 1;
        }
        proof {
            assert forall|x: Button| #[trigger] kept@.contains(x) <==> (
                self.active_buttons@.contains(x) && x != b) by {
                if self.active_buttons@.contains(x) && x != b {
                    let j = choose|j: int| 0 <= j < self.active_buttons@.len() && self.active_buttons@[j] == x;
                    assert(self.active_buttons@[j] != b);
                }
                if kept@.contains(x) {
                    let m = choose|m: int| 0 <= m < kept@.len() && kept@[m] == x;
                    assert(kept@[m] != b);
                }
            }
        }
        self.active_buttons = kept;
        if held {
            self.released_buttons.push(b);
        }
    }

    /// Records pointer motion to `(x, y)` by `(dx, dy)`; deltas within one
    /// frame add up.
    pub fn move_pointer(&mut self, x: i32, y: i32, dx: i32, dy: i32)
        ensures
            final(self).mouse_absolute == Some(Vec2i { x, y }),
            final(self).mouse_delta == Some(accumulated(old(self).mouse_delta, Vec2i { x: dx, y: dy })),
            final(self).wheel_delta == old(self).wheel_delta,
            final(self).active_buttons@ == old(self).active_buttons@,
            final(self).new_buttons@ == old(self).new_buttons@,
            final(self).released_buttons@ == old(self).released_buttons@,
    {
        self.mouse_absolute = Some(Vec2i { x, y });
        self.mouse_delta = match self.mouse_delta {
            None => Some(Vec2i { x: dx, y: dy }),
            Some(p) => Some(Vec2i { x: add_saturating(p.x, dx), y: add_saturating(p.y, dy) }),
        };
    }

    /// Records that the pointer left the window: no absolute position until
    /// it moves again.
    pub fn leave_window(&mut self)
        ensures
            final(self).mouse_absolute is None,
            final(self).mouse_delta == old(self).mouse_delta,
            final(self).wheel_delta == old(self).wheel_delta,
            final(self).active_buttons@ == old(self).active_buttons@,
            final(self).new_buttons@ == old(self).new_buttons@,
            final(self).released_buttons@ == old(self).released_buttons@,
    {
        self.mouse_absolute = None;
    }

    /// Records wheel motion; amounts within one frame add up.
    pub fn scroll(&mut self, d: i32)
        ensures
            final(self).wheel_delta == Some(
                match old(self).wheel_delta {
                    None => d,
                    Some(w) => saturating_sum(w, d),
                },
            ),
            final(self).mouse_absolute == old(self).mouse_absolute,
            final(self).mouse_delta == old(self).mouse_delta,
            final(self).active_buttons@ == old(self).active_buttons@,
            final(self).new_buttons@ == old(self).new_buttons@,
            final(self).released_buttons@ == old(self).released_buttons@,
    {
        self.wheel_delta = match self.wheel_delta {
            None => Some(d),
            Some(w) => Some(add_saturating(w, d)),
        };
    }

    /// Records a button event.
    pub fn apply(&mut self, e: ButtonEvent)
        ensures
            event_step(*old(self), *final(self), e),
    {
        match e {
            ButtonEvent::Press(b) => self.press(b),
            ButtonEvent::Release(b) => self.release(b),
        }
    }
}

} // verus!
