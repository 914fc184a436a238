//! Value types for keyboard, pointer and touch input.
//!
//! Positions and distances on the pointer plane are fixed-point integers:
//! [`UNITS_PER_PIXEL`] units make one pixel. Every event that comes from a
//! device carries a complete snapshot of the modifier keys at the moment it
//! was produced.

use vstd::prelude::*;

verus! {

/// Number of fixed-point units in one pixel.
pub const UNITS_PER_PIXEL: i64 = 256;

/// Whether a key went down or came up.
#[derive(Debug, Clone, Copy, PartialEq, Eq, Structural)]
pub enum KeyState {
    Pressed,
    Released,
}

/// Whether a pointer button went down or came up.
#[derive(Debug, Clone, Copy, PartialEq, Eq, Structural)]
pub enum ButtonState {
    Pressed,
    Released,
}

/// The modifier keys held at one instant.
#[derive(Debug, Clone, Copy, PartialEq, Eq, Structural)]
pub struct Modifiers {
    pub shift: bool,
    pub ctrl: bool,
    pub alt: bool,
    pub logo: bool,
}

impl Modifiers {
    /// The snapshot in which no modifier is held.
    pub open spec fn none() -> Modifiers {
        Modifiers { shift: false, ctrl: false, alt: false, logo: false }
    }
}

impl Default for Modifiers {
    fn default() -> (m: Modifiers)
        ensures
            m == Modifiers::none(),
    {
        Modifiers { shift: false, ctrl: false, alt: false, logo: false }
    }
}

/// One input event.
///
/// The first seven variants come from devices. `CopyShortcut` and
/// `PasteShortcut` are composed events: the input manager puts them in place
/// of the key press that completed the shortcut, and they carry no modifiers.
#[derive(Debug, Clone, Copy, PartialEq, Eq, Structural)]
#[allow(inconsistent_fields)]
pub enum InputEvent {
    Keyboard { key_code: u32, state: KeyState, modifiers: Modifiers },
    /// Relative pointer movement.
    PointerMotion { delta_x: i64, delta_y: i64, modifiers: Modifiers },
    PointerButton { button_code: u32, state: ButtonState, modifiers: Modifiers },
    /// Scrolling.
    PointerAxis { horizontal: i64, vertical: i64, modifiers: Modifiers },
    TouchDown { touch_id: u32, x: i64, y: i64, modifiers: Modifiers },
    TouchMotion { touch_id: u32, x: i64, y: i64, modifiers: Modifiers },
    TouchUp { touch_id: u32, modifiers: Modifiers },
    CopyShortcut,
    PasteShortcut,
}

impl InputEvent {
    /// The modifier snapshot that the event carries, if it carries one.
    pub open spec fn carried_modifiers(self) -> Option<Modifiers> {
        match self {
            InputEvent::Keyboard { modifiers, .. } => Some(modifiers),
            InputEvent::PointerMotion { modifiers, .. } => Some(modifiers),
            InputEvent::PointerButton { modifiers, .. } => Some(modifiers),
            InputEvent::PointerAxis { modifiers, .. } => Some(modifiers),
            InputEvent::TouchDown { modifiers, .. } => Some(modifiers),
            InputEvent::TouchMotion { modifiers, .. } => Some(modifiers),
            InputEvent::TouchUp { modifiers, .. } => Some(modifiers),
            InputEvent::CopyShortcut => None,
            InputEvent::PasteShortcut => None,
        }
    }

    /// The modifier snapshot that the event carries, if it carries one.
    pub fn modifiers(&self) -> (m: Option<Modifiers>)
        ensures
            m == self.carried_modifiers(),
    {
        match self {
            InputEvent::Keyboard { modifiers, .. } => Some(*modifiers),
            InputEvent::PointerMotion { modifiers, .. } => Some(*modifiers),
            InputEvent::PointerButton { modifiers, .. } => Some(*modifiers),
            InputEvent::PointerAxis { modifiers, .. } => Some(*modifiers),
            InputEvent::TouchDown { modifiers, .. } => Some(*modifiers),
            InputEvent::TouchMotion { modifiers, .. } => Some(*modifiers),
            InputEvent::TouchUp { modifiers, .. } => Some(*modifiers),
            InputEvent::CopyShortcut => None,
            InputEvent::PasteShortcut => None,
        }
    }
}

} // verus!
