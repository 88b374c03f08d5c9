//! Plain identifiers for keyboard keys and mouse buttons.
//!
//! The engine never inspects a key beyond comparing it for equality, so a
//! key is modelled as a bare numeric code. The surrounding application maps
//! these codes to and from the platform's own key type. The named constants
//! below follow the Linux event-code numbering for the handful of keys the
//! default bindings use.

use vstd::prelude::*;

verus! {

/// A keyboard key, identified by a numeric code.
#[derive(Clone, Copy, PartialEq, Eq, Structural, Debug, Hash)]
pub struct KeyCode {
    pub code: u32,
}

/// A mouse button the actuator can press.
#[derive(Clone, Copy, PartialEq, Eq, Structural, Debug)]
pub enum MouseButton {
    Left,
    Right,
}

pub const KEY_CONTROL_LEFT: u32 = 29;
pub const KEY_NUM1: u32 = 2;
pub const KEY_NUM2: u32 = 3;
pub const KEY_NUM3: u32 = 4;
pub const KEY_NUM4: u32 = 5;
pub const KEY_NUM5: u32 = 6;
pub const KEY_NUM6: u32 = 7;
pub const KEY_F: u32 = 33;
pub const KEY_X: u32 = 45;
pub const KEY_C: u32 = 46;
pub const KEY_V: u32 = 47;

} // verus!
