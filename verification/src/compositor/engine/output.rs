//! Display outputs.

use vstd::prelude::*;

verus! {

/// A display output, such as a monitor, placed in the global coordinate
/// space.
#[derive(Debug, Clone, PartialEq, Eq)]
pub struct Output {
    pub id: u32,
    /// Human-readable name, such as "DP-1".
    pub name: String,
    /// Width in pixels.
    pub width: u32,
    /// Height in pixels.
    pub height: u32,
    /// Left edge in the global coordinate space.
    pub x: i32,
    /// Top edge in the global coordinate space.
    pub y: i32,
    /// Whether this is the primary output.
    pub is_primary: bool,
}

/// The mathematical value of an [`Output`].
pub struct OutputView {
    pub id: u32,
    pub name: Seq<char>,
    pub width: u32,
    pub height: u32,
    pub x: i32,
    pub y: i32,
    pub is_primary: bool,
}

impl View for Output {
    type V = OutputView;

    open spec fn view(&self) -> OutputView {
        OutputView {
            id: self.id,
            name: self.name@,
            width: self.width,
            height: self.height,
            x: self.x,
            y: self.y,
            is_primary: self.is_primary,
        }
    }
}

impl Output {
    pub fn new(
        id: u32,
        name: String,
        width: u32,
        height: u32,
        x: i32,
        y: i32,
        is_primary: bool,
    ) -> (output: Output)
        ensures
            output@ == (OutputView { id, name: name@, width, height, x, y, is_primary }),
    {
        Output { id, name, width, height, x, y, is_primary }
    }
}

} // verus!
