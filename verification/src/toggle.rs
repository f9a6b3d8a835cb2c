//! A checkbox bound to a boolean.

use vstd::prelude::*;

verus! {

/// A checkbox over a bound boolean.
#[derive(Clone, Copy, Debug)]
pub struct ToggleInput {
    checked: bool,
}

impl View for ToggleInput {
    type V = bool;

    /// Whether the checkbox is checked.
    closed spec fn view(&self) -> bool {
        self.checked
    }
}

impl ToggleInput {
    /// Mounts the checkbox over the value the binding holds.
    pub fn new(bound: bool) -> (r: Self)
        ensures
            r@ == bound,
    {
        ToggleInput { checked: bound }
    }

    /// Whether the checkbox is checked.
    pub fn is_checked(&self) -> (r: bool)
        ensures
            r == self@,
    {
        self.checked
    }

    /// Handles a change event that leaves the checkbox `checked`: that state
    /// is written to the binding as it is. The result is the value written.
    pub fn on_change(&mut self, checked: bool) -> (written: bool)
        ensures
            final(self)@ == checked,
            written == checked,
    {
        self.checked = checked;
        checked
    }
}

} // verus!
