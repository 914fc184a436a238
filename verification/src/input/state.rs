//! The tracked state of all input mechanisms, reduced from the event stream.

use super::event::{ButtonState, InputEvent, KeyState, Modifiers};
use std::collections::{HashMap, HashSet};
use vstd::prelude::*;

verus! {

broadcast use vstd::std_specs::hash::group_hash_axioms;

/// What is currently held down, where the pointer is, which touch points are
/// active and which modifiers the latest event reported.
///
/// No history is kept: the state is a function of the events seen so far.
#[derive(Debug, PartialEq)]
pub struct InputState {
    /// Key codes that are down.
    pub pressed_keys: HashSet<u32>,
    /// Accumulated pointer position, in fixed-point units.
    pub pointer_x: i64,
    pub pointer_y: i64,
    /// Pointer button codes that are down.
    pub pressed_buttons: HashSet<u32>,
    /// Position of each active touch point, by touch id.
    pub active_touches: HashMap<u32, (i64, i64)>,
    /// Modifiers as of the latest event that carried any.
    pub modifiers: Modifiers,
}

/// The mathematical value of an [`InputState`].
pub struct InputStateView {
    pub pressed_keys: Set<u32>,
    pub pointer_x: i64,
    pub pointer_y: i64,
    pub pressed_buttons: Set<u32>,
    pub active_touches: Map<u32, (i64, i64)>,
    pub modifiers: Modifiers,
}

/// `a + b`, held at the nearest bound of `i64` where the sum leaves its range.
pub open spec fn saturating_sum(a: i64, b: i64) -> i64 {
    if a + b > i64::MAX {
        i64::MAX
    } else if a + b < i64::MIN {
        i64::MIN
    } else {
        (a + b) as i64
    }
}

impl InputStateView {
    /// The state before any event: nothing held, pointer at the origin.
    pub open spec fn initial() -> InputStateView {
        InputStateView {
            pressed_keys: Set::empty(),
            pointer_x: 0,
            pointer_y: 0,
            pressed_buttons: Set::empty(),
            active_touches: Map::empty(),
            modifiers: Modifiers::none(),
        }
    }

    /// The state with the modifier snapshot of `event` written over the
    /// current one. An event that carries none leaves it as it is.
    pub open spec fn with_modifiers_of(self, event: InputEvent) -> InputStateView {
        match event.carried_modifiers() {
            Some(m) => InputStateView { modifiers: m, ..self },
            None => self,
        }
    }

    /// The state after `event`.
    ///
    /// Modifiers are overwritten by those of the event. A key or button
    /// joins its set when pressed and leaves it when released. Pointer motion
    /// adds the reported distance to the position. Scrolling changes nothing
    /// else. A touch point appears on touch-down, moves only if it is known,
    /// and disappears on touch-up.
    pub open spec fn after(self, event: InputEvent) -> InputStateView {
        let s = self.with_modifiers_of(event);
        match event {
            InputEvent::Keyboard { key_code, state: KeyState::Pressed, .. } => InputStateView {
                pressed_keys: s.pressed_keys.insert(key_code),
                ..s
            },
            InputEvent::Keyboard { key_code, state: KeyState::Released, .. } => InputStateView {
                pressed_keys: s.pressed_keys.remove(key_code),
                ..s
            },
            InputEvent::PointerMotion { delta_x, delta_y, .. } => InputStateView {
                pointer_x: saturating_sum(s.pointer_x, delta_x),
                pointer_y: saturating_sum(s.pointer_y, delta_y),
                ..s
            },
            InputEvent::PointerButton {
                button_code,
                state: ButtonState::Pressed,
                ..
            } => InputStateView { pressed_buttons: s.pressed_buttons.insert(button_code), ..s },
            InputEvent::PointerButton {
                button_code,
                state: ButtonState::Released,
                ..
            } => InputStateView { pressed_buttons: s.pressed_buttons.remove(button_code), ..s },
            InputEvent::PointerAxis { .. } => s,
            InputEvent::TouchDown { touch_id, x, y, .. } => InputStateView {
                active_touches: s.active_touches.insert(touch_id, (x, y)),
                ..s
            },
            InputEvent::TouchMotion { touch_id, x, y, .. } => if s.active_touches.dom().contains(
                touch_id,
            ) {
                InputStateView { active_touches: s.active_touches.insert(touch_id, (x, y)), ..s }
            } else {
                s
            },
            InputEvent::TouchUp { touch_id, .. } => InputStateView {
                active_touches: s.active_touches.remove(touch_id),
                ..s
            },
            InputEvent::CopyShortcut => s,
            InputEvent::PasteShortcut => s,
        }
    }
}

impl View for InputState {
    type V = InputStateView;

    open spec fn view(&self) -> InputStateView {
        InputStateView {
            pressed_keys: self.pressed_keys@,
            pointer_x: self.pointer_x,
            pointer_y: self.pointer_y,
            pressed_buttons: self.pressed_buttons@,
            active_touches: self.active_touches@,
            modifiers: self.modifiers,
        }
    }
}

impl Default for InputState {
    /// Nothing held, pointer at the origin, no touch point, no modifier.
    fn default() -> (state: InputState)
        ensures
            state@ == InputStateView::initial(),
    {
        InputState {
            pressed_keys: HashSet::new(),
            pointer_x: 0,
            pointer_y: 0,
            pressed_buttons: HashSet::new(),
            active_touches: HashMap::new(),
            modifiers: Modifiers::default(),
        }
    }
}

/// `a + b`, held at the nearest bound of `i64` where the sum leaves its range.
fn add_saturating(a: i64, b: i64) -> (sum: i64)
    ensures
        sum == saturating_sum(a, b),
{
    if b >= 0 {
        if a > i64::MAX - b {
            i64::MAX
        } else {
            a + b
        }
    } else {
        if a < i64::MIN - b {
            i64::MIN
        } else {
            a + b
        }
    }
}

impl InputState {
    /// Brings the state up to date with `event`.
    pub fn update_from_event(&mut self, event: &InputEvent)
        ensures
            final(self)@ == old(self)@.after(*event),
    {
        match event.modifiers() {
            Some(m) => {
                self.modifiers = m;
            },
            None => {},
        }
        match event {
            InputEvent::Keyboard { key_code, state, .. } => {
                match state {
                    KeyState::Pressed => {
                        self.pressed_keys.insert(*key_code);
                    },
                    KeyState::Released => {
                        self.pressed_keys.remove(key_code);
                    },
                }
            },
            InputEvent::PointerMotion { delta_x, delta_y, .. } => {
                self.pointer_x = add_saturating(self.pointer_x, *delta_x);
                self.pointer_y = add_saturating(self.pointer_y, *delta_y);
            },
            InputEvent::PointerButton { button_code, state, .. } => {
                match state {
                    ButtonState::Pressed => {
                        self.pressed_buttons.insert(*button_code);
                    },
                    ButtonState::Released => {
                        self.pressed_buttons.remove(button_code);
                    },
                }
            },
            InputEvent::PointerAxis { .. } => {},
            InputEvent::TouchDown { touch_id, x, y, .. } => {
                self.active_touches.insert(*touch_id, (*x, *y));
            },
            InputEvent::TouchMotion { touch_id, x, y, .. } => {
                if self.active_touches.contains_key(touch_id) {
                    self.active_touches.insert(*touch_id, (*x, *y));
                }
            },
            InputEvent::TouchUp { touch_id, .. } => {
                self.active_touches.remove(touch_id);
            },
            InputEvent::CopyShortcut => {},
            InputEvent::PasteShortcut => {},
        }
    }
}

} // verus!
