//! Requests handed to the actuator and the primitive events it emits.

use vstd::prelude::*;
use crate::keys::KeyCode;
use crate::keys::MouseButton;

verus! {

/// One primitive synthetic input event. Emission order is externally
/// observable and must be preserved.
#[derive(Clone, Copy, PartialEq, Eq, Structural, Debug)]
pub enum SyntheticEvent {
    KeyPress(KeyCode),
    KeyRelease(KeyCode),
    ButtonPress(MouseButton),
    ButtonRelease(MouseButton),
}

/// Which gesture an action performs: using the item in a slot (a right
/// click) or punching with it (a left click).
#[derive(Clone, Copy, PartialEq, Eq, Structural, Debug)]
pub enum ActionKind {
    UseItem,
    Punch,
}

/// Strong actions must execute and may preempt in-flight work; Weak actions
/// are best-effort and are dropped under contention.
#[derive(Clone, Copy, PartialEq, Eq, Structural, Debug)]
pub enum Strength {
    Strong,
    Weak,
}

/// A request for one action: select a hotbar slot and perform a gesture.
#[derive(Clone, Copy, PartialEq, Eq, Structural, Debug)]
pub struct ActionRequest {
    pub slot: KeyCode,
    pub kind: ActionKind,
    pub strength: Strength,
}

impl ActionKind {
    /// The mouse button that performs this gesture.
    pub open spec fn spec_button(self) -> MouseButton {
        match self {
            ActionKind::UseItem => MouseButton::Right,
            ActionKind::Punch => MouseButton::Left,
        }
    }

    /// The mouse button that performs this gesture.
    #[verifier::when_used_as_spec(spec_button)]
    pub fn button(self) -> (b: MouseButton)
        ensures
            b == self.spec_button(),
    {
        match self {
            ActionKind::UseItem => MouseButton::Right,
            ActionKind::Punch => MouseButton::Left,
        }
    }
}

} // verus!
