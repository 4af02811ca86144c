//! The tracked visibility flag.

use vstd::prelude::*;

verus! {

/// Whether the window is hidden, as this application last decided it.
///
/// On a platform where the window host cannot be asked reliably right after
/// a toggle, this flag is the ground truth. The owner keeps it behind its
/// lock and holds the lock for one call of [`WindowVisibility::flip`] only.
#[derive(Debug, PartialEq, Eq)]
pub struct WindowVisibility {
    pub is_hidden: bool,
}

impl WindowVisibility {
    /// The flag of a window that is shown.
    pub fn new() -> (state: WindowVisibility)
        ensures
            !state.is_hidden,
    {
        WindowVisibility { is_hidden: false }
    }

    /// Reads, flips and writes the flag in one step, and returns the new value.
    pub fn flip(&mut self) -> (now_hidden: bool)
        ensures
            final(self).is_hidden == !old(self).is_hidden,
            now_hidden == final(self).is_hidden,
    {
        self.is_hidden = !self.is_hidden;
        self.is_hidden
    }
}

} // verus!
