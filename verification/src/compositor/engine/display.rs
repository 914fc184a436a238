//! The display configuration.

use vstd::prelude::*;

verus! {

/// Global display properties. For now, a name.
#[derive(Debug)]
pub struct Display {
    /// Name of the display configuration.
    pub name: String,
}

impl View for Display {
    type V = Seq<char>;

    open spec fn view(&self) -> Seq<char> {
        self.name@
    }
}

impl Default for Display {
    /// The display configuration with the empty name.
    fn default() -> (display: Display)
        ensures
            display@ == Seq::<char>::empty(),
    {
        Display { name: String::new() }
    }
}

impl Display {
    pub fn new(name: String) -> (display: Display)
        ensures
            display@ == name@,
    {
        Display { name }
    }
}

} // verus!
