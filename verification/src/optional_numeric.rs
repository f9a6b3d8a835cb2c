//! An optional numeric input: a checkbox that says whether there is a number,
//! and a numeric input, shown while there is one, that edits it.

use crate::decimal::Numeric;
use crate::numeric::NumericInput;
use crate::toggle::ToggleInput;
use vstd::prelude::*;

verus! {

/// What an `OptionalNumericInput` holds.
pub struct OptionalNumericState<T> {
    /// Whether the checkbox is checked, that is whether there is a number.
    pub present: bool,
    /// The number entered or seen last. It outlives the unchecking of the
    /// checkbox.
    pub cached: T,
    /// How the latest entry in the numeric input read.
    pub entry: Option<T>,
}

impl<T> OptionalNumericState<T> {
    /// The value that the binding holds.
    pub open spec fn bound(self) -> Option<T> {
        if self.present {
            Some(self.cached)
        } else {
            None
        }
    }

    /// Whether the validation message shows: the numeric input is shown and
    /// its latest entry was no number.
    pub open spec fn shows_error(self) -> bool {
        self.present && self.entry is None
    }

    /// The state after the checkbox changed to `checked`. Checking it shows
    /// the numeric input afresh over the remembered number.
    pub open spec fn toggled(self, checked: bool) -> Self {
        OptionalNumericState {
            present: checked,
            cached: self.cached,
            entry: if checked && !self.present {
                Some(self.cached)
            } else {
                self.entry
            },
        }
    }

    /// The state after an entry in the numeric input that read as `parsed`.
    pub open spec fn entered(self, parsed: Option<T>) -> Self {
        match parsed {
            Some(value) => OptionalNumericState { present: true, cached: value, entry: parsed },
            None => OptionalNumericState { entry: parsed, ..self },
        }
    }
}

/// An optional numeric input over a bound optional number.
pub struct OptionalNumericInput<T> {
    toggle: ToggleInput,
    cached: T,
    field: NumericInput<T>,
}

impl<T> View for OptionalNumericInput<T> {
    type V = OptionalNumericState<T>;

    closed spec fn view(&self) -> OptionalNumericState<T> {
        OptionalNumericState { present: self.toggle@, cached: self.cached, entry: self.field@ }
    }
}

impl<T: Copy> OptionalNumericInput<T> {
    /// Whether the checkbox is checked and the numeric input shown.
    pub fn is_present(&self) -> (r: bool)
        ensures
            r == self@.present,
    {
        self.toggle.is_checked()
    }

    /// The value that the binding holds.
    pub fn value(&self) -> (r: Option<T>)
        ensures
            r == self@.bound(),
    {
        if self.toggle.is_checked() {
            Some(self.cached)
        } else {
            None
        }
    }

    /// Whether the validation message shows.
    pub fn shows_error(&self) -> (r: bool)
        ensures
            r == self@.shows_error(),
    {
        self.toggle.is_checked() && self.field.shows_error()
    }

    /// Handles a change of the checkbox to `checked`. Unchecking writes `None`
    /// to the binding; checking writes the number entered or seen last. The
    /// result is the value written.
    pub fn on_toggle(&mut self, checked: bool) -> (written: Option<T>)
        ensures
            final(self)@ == old(self)@.toggled(checked),
            written == final(self)@.bound(),
    {
        if checked && !self.toggle.is_checked() {
            self.field = NumericInput::new(self.cached);
        }
        self.toggle.on_change(checked);
        self.value()
    }

    /// Handles an entry in the numeric input that was read outside: `parsed`
    /// is the number it read as, if any. A number is remembered and written
    /// to the binding; an entry that is no number writes nothing.
    pub fn on_parsed(&mut self, parsed: Option<T>) -> (written: Option<Option<T>>)
        ensures
            final(self)@ == old(self)@.entered(parsed),
            written == (match parsed {
                Some(value) => Some(Some(value)),
                None => None,
            }),
    {
        match self.field.on_parsed(parsed) {
            Some(value) => {
                self.cached = value;
                self.toggle.on_change(true);
                Some(Some(value))
            },
            None => None,
        }
    }
}

impl<T: Copy + Default> OptionalNumericInput<T> {
    /// Mounts the input over the value the binding holds. Where it holds
    /// none, the number offered on checking the checkbox is the default of
    /// the number type.
    pub fn new(bound: Option<T>) -> (r: Self)
        ensures
            r@.present == (bound is Some),
            bound matches Some(value) ==> r@.cached == value,
            bound is None ==> call_ensures(T::default, (), r@.cached),
            r@.entry == Some(r@.cached),
    {
        let cached = match bound {
            Some(value) => value,
            None => T::default(),
        };
        OptionalNumericInput {
            toggle: ToggleInput::new(bound.is_some()),
            cached,
            field: NumericInput::new(cached),
        }
    }
}

impl<T: Numeric> OptionalNumericInput<T> {
    /// Handles an input event that leaves `text` in the numeric input. Where
    /// the text reads as a number, that number is remembered and written to
    /// the binding; where it does not, nothing is written and the message
    /// shows.
    pub fn on_input(&mut self, text: &str) -> (written: Option<Option<T>>)
        ensures
            final(self)@ == old(self)@.entered(T::parsed(text@)),
            written == (match T::parsed(text@) {
                Some(value) => Some(Some(value)),
                None => None,
            }),
    {
        let parsed = T::parse(text);
        self.on_parsed(parsed)
    }
}

/// Unchecking and checking the checkbox again brings back the number that was
/// entered before, whatever it was.
pub proof fn lemma_toggle_restores_entry<T>(state: OptionalNumericState<T>, value: T)
    ensures
        state.entered(Some(value)).toggled(false).bound() == None::<T>,
        state.entered(Some(value)).toggled(false).toggled(true).bound() == Some(value),
{
}

/// The checkbox never changes the remembered number: checking it writes the
/// number that was there when it was unchecked.
pub proof fn lemma_toggle_keeps_number<T>(state: OptionalNumericState<T>, checked: bool)
    ensures
        state.toggled(checked).cached == state.cached,
        state.toggled(checked).bound() == if checked {
            Some(state.cached)
        } else {
            None
        },
{
}

} // verus!
