//! A numeric input: a text field whose content is written to a bound number
//! whenever it reads as one.

use crate::binding::bound_after;
use crate::decimal::Numeric;
use vstd::prelude::*;

verus! {

/// A numeric input over a bound number. It remembers how the latest entry
/// read, which decides whether the validation message shows.
#[derive(Debug)]
pub struct NumericInput<T> {
    last: Option<T>,
}

impl<T: Copy> Clone for NumericInput<T> {
    fn clone(&self) -> (copy: Self)
        ensures
            copy == *self,
    {
        *self
    }
}

impl<T: Copy> Copy for NumericInput<T> {

}

impl<T> View for NumericInput<T> {
    type V = Option<T>;

    /// How the latest entry read: the number, or `None` where it was none.
    closed spec fn view(&self) -> Option<T> {
        self.last
    }
}

impl<T: Copy> NumericInput<T> {
    /// Mounts the input over the number the binding holds. That number counts
    /// as the latest entry, so no message shows.
    pub fn new(bound: T) -> (r: Self)
        ensures
            r@ == Some(bound),
    {
        NumericInput { last: Some(bound) }
    }

    /// An input whose latest entry was no number.
    pub(crate) fn unread() -> (r: Self)
        ensures
            r@ is None,
    {
        NumericInput { last: None }
    }

    /// Whether the validation message shows: the latest entry was no number.
    pub fn shows_error(&self) -> (r: bool)
        ensures
            r == (self@ is None),
    {
        self.last.is_none()
    }

    /// Handles an entry that was read outside: `parsed` is the number it read
    /// as, if any. A number is written to the binding; an entry that is no
    /// number writes nothing, so the binding keeps its value.
    pub fn on_parsed(&mut self, parsed: Option<T>) -> (written: Option<T>)
        ensures
            final(self)@ == parsed,
            written == parsed,
    {
        self.last = parsed;
        parsed
    }
}

impl<T: Numeric> NumericInput<T> {
    /// Handles an input event that leaves `text` in the field. Where the text
    /// reads as a number, that number is written to the binding and no message
    /// shows; where it does not, nothing is written and the message shows.
    pub fn on_input(&mut self, text: &str) -> (written: Option<T>)
        ensures
            final(self)@ == T::parsed(text@),
            written == T::parsed(text@),
    {
        let parsed = T::parse(text);
        self.on_parsed(parsed)
    }
}

/// Text that reads as a number puts that number in the binding: the input
/// hands it to the setter, and the binding holds it afterwards.
pub proof fn lemma_number_is_bound<T: Numeric>(bound: T, text: Seq<char>, number: T)
    requires
        T::parsed(text) == Some(number),
    ensures
        bound_after(bound, T::parsed(text)) == number,
{
}

/// Text that reads as no number leaves the binding with the value it held:
/// the input hands nothing to the setter.
pub proof fn lemma_other_text_keeps_bound<T: Numeric>(bound: T, text: Seq<char>)
    requires
        T::parsed(text) is None,
    ensures
        bound_after(bound, T::parsed(text)) == bound,
{
}

} // verus!
