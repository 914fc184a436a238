//! Input: the event vocabulary, the devices, the tracked input state and the
//! manager that feeds it.

pub mod device;
pub mod event;
pub mod laws;
pub mod manager;
pub mod state;

pub use device::{DeviceType, InputDevice};
pub use event::{ButtonState, InputEvent, KeyState, Modifiers, UNITS_PER_PIXEL};
pub use manager::InputManager;
pub use state::{InputState, InputStateView};
