//! Input devices known to the compositor.

use vstd::prelude::*;

verus! {

/// The kind of an input device.
#[derive(Debug, Clone, Copy, PartialEq, Eq, Structural)]
pub enum DeviceType {
    Keyboard,
    /// A mouse or trackpad.
    Pointer,
    Touch,
}

/// An input device: its identifier, its human-readable name and its kind.
#[derive(Debug, Clone, PartialEq, Eq)]
pub struct InputDevice {
    pub id: u32,
    pub name: String,
    pub device_type: DeviceType,
}

impl InputDevice {
    pub fn new(id: u32, name: String, device_type: DeviceType) -> (device: InputDevice)
        ensures
            device.id == id,
            device.name == name,
            device.device_type == device_type,
    {
        InputDevice { id, name, device_type }
    }
}

} // verus!
