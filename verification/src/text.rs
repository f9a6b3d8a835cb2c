//! A text input bound to a string.

use vstd::prelude::*;

verus! {

/// A text input over a bound string.
pub struct TextInput {
    text: String,
}

impl View for TextInput {
    type V = Seq<char>;

    /// The text in the field.
    closed spec fn view(&self) -> Seq<char> {
        self.text@
    }
}

impl TextInput {
    /// Mounts the input showing the string the binding holds.
    pub fn new(bound: String) -> (r: Self)
        ensures
            r@ == bound@,
    {
        TextInput { text: bound }
    }

    /// The text in the field.
    pub fn text(&self) -> (text: &str)
        ensures
            text@ == self@,
    {
        self.text.as_str()
    }

    /// Handles an input event that leaves `value` in the field: the string is
    /// written to the binding as it is, whatever it holds. The result is the
    /// string written.
    pub fn on_input(&mut self, value: String) -> (written: String)
        ensures
            final(self)@ == value@,
            written@ == value@,
    {
        let written = value.clone();
        self.text = value;
        written
    }
}

} // verus!
