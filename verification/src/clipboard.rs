//! The clipboard: at most one text.

use vstd::prelude::*;

verus! {

/// Holds the text that was copied last, if any.
#[derive(Debug)]
pub struct Clipboard {
    data: Option<String>,
}

impl View for Clipboard {
    type V = Option<Seq<char>>;

    closed spec fn view(&self) -> Option<Seq<char>> {
        match self.data {
            Some(s) => Some(s@),
            None => None,
        }
    }
}

impl Default for Clipboard {
    fn default() -> (clipboard: Clipboard)
        ensures
            clipboard@ is None,
    {
        Clipboard::new()
    }
}

impl Clipboard {
    /// An empty clipboard.
    pub fn new() -> (clipboard: Clipboard)
        ensures
            clipboard@ is None,
    {
        Clipboard { data: None }
    }

    /// Puts `data` on the clipboard in place of what was there.
    pub fn set_data(&mut self, data: String)
        ensures
            final(self)@ == Some(data@),
    {
        self.data = Some(data);
    }

    /// A copy of what the clipboard holds.
    pub fn get_data(&self) -> (data: Option<String>)
        ensures
            data matches Some(s) ==> self@ == Some(s@),
            data is None ==> self@ is None,
    {
        match &self.data {
            Some(s) => Some(s.clone()),
            None => None,
        }
    }

    /// Empties the clipboard.
    pub fn clear_data(&mut self)
        ensures
            final(self)@ is None,
    {
        self.data = None;
    }
}

} // verus!
