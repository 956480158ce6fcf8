//! An input routing engine: raw device samples go in once per frame, and
//! named, per-frame action states come out, resolved through prioritised,
//! independently activatable contexts and context groups.

pub mod action;
pub mod device;
pub mod harness;
pub mod laws;
pub mod router;
pub mod space;

pub use action::{Action, ActionID, ActionKind, ActionState, Binding, ContextGroupID, ContextID, FrameState};
pub use device::{Button, ButtonEvent, MouseButton, RawDeviceState, Vec2i};
pub use space::{CoordinateSpace, Ratio, Sensitivity, Vector2, Viewport};
pub use router::{BuiltContext, Context, ContextBuilder, ContextGroup, InputRouter, RouterError, RouterView};
