//! The input manager: owns the tracked input state and recognises the
//! composed shortcuts in the event stream.

use super::event::{InputEvent, KeyState};
use super::state::{InputState, InputStateView};
use vstd::prelude::*;

verus! {

/// Key code of the key that, with ctrl, copies.
pub const KEY_C: u32 = 67;

/// Key code of the key that, with ctrl, pastes.
pub const KEY_V: u32 = 86;

/// The event that stands for `event` above the manager: the copy or paste
/// shortcut where `event` is a press of its key with ctrl held, and `event`
/// itself otherwise.
pub open spec fn recognized(event: InputEvent) -> InputEvent {
    match event {
        InputEvent::Keyboard { key_code, state: KeyState::Pressed, modifiers } => {
            if modifiers.ctrl && key_code == KEY_C {
                InputEvent::CopyShortcut
            } else if modifiers.ctrl && key_code == KEY_V {
                InputEvent::PasteShortcut
            } else {
                event
            }
        },
        _ => event,
    }
}

/// Owns the state of all input devices and reduces incoming events into it.
#[derive(Debug)]
pub struct InputManager {
    pub input_state: InputState,
}

impl View for InputManager {
    type V = InputStateView;

    open spec fn view(&self) -> InputStateView {
        self.input_state@
    }
}

impl Default for InputManager {
    fn default() -> (manager: InputManager)
        ensures
            manager@ == InputStateView::initial(),
    {
        InputManager::new()
    }
}

impl InputManager {
    /// A manager whose state has seen no event.
    pub fn new() -> (manager: InputManager)
        ensures
            manager@ == InputStateView::initial(),
    {
        InputManager { input_state: InputState::default() }
    }

    /// Feeds one raw event to the tracked state and says what the event
    /// stands for.
    ///
    /// The state is updated by the event as it came in. The result is the
    /// copy or paste shortcut if the event completed one, else the event
    /// itself.
    pub fn process_simulated_raw_event(&mut self, event: InputEvent) -> (out: InputEvent)
        ensures
            final(self)@ == old(self)@.after(event),
            out == recognized(event),
    {
        self.input_state.update_from_event(&event);
        match event {
            InputEvent::Keyboard { key_code, state, modifiers } => {
                if modifiers.ctrl && state == KeyState::Pressed {
                    if key_code == KEY_C {
                        return InputEvent::CopyShortcut;
                    } else if key_code == KEY_V {
                        return InputEvent::PasteShortcut;
                    }
                }
            },
            _ => {},
        }
        event
    }
}

} // verus!
