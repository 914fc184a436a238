//! Seats.

use vstd::prelude::*;

verus! {

/// An input focus context: a name and at most one focused window.
#[derive(Debug, Clone, PartialEq)]
pub struct Seat {
    /// Name of the seat, such as "seat0".
    pub name: String,
    /// The window that has this seat's focus, by id.
    pub focused_window: Option<u32>,
}

/// The mathematical value of a [`Seat`].
pub struct SeatView {
    pub name: Seq<char>,
    pub focused_window: Option<u32>,
}

impl View for Seat {
    type V = SeatView;

    open spec fn view(&self) -> SeatView {
        SeatView { name: self.name@, focused_window: self.focused_window }
    }
}

impl Seat {
    /// A seat without focus.
    pub fn new(name: String) -> (seat: Seat)
        ensures
            seat@ == (SeatView { name: name@, focused_window: None }),
    {
        Seat { name, focused_window: None }
    }
}

} // verus!
