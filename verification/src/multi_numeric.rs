//! An input over a fixed number of bound numbers, each with a label of its
//! own and a numeric input of its own.

use crate::decimal::Numeric;
use crate::numeric::NumericInput;
use vstd::prelude::*;

verus! {

/// An input over `N` bound numbers: one numeric input per position, all
/// editing a copy of the numbers that is written back whole on every change.
pub struct MultiNumericInput<T, const N: usize> {
    values: [T; N],
    fields: [NumericInput<T>; N],
    sublabels: [&'static str; N],
}

impl<T: Copy, const N: usize> MultiNumericInput<T, N> {
    /// The input's copy of the numbers.
    pub closed spec fn mirror(&self) -> Seq<T> {
        self.values@
    }

    /// How the latest entry at each position read: its number, or `None`
    /// where it was none.
    pub closed spec fn entries(&self) -> Seq<Option<T>> {
        Seq::new(N as nat, |i: int| self.fields[i]@)
    }

    /// The label of each position.
    pub closed spec fn labels(&self) -> Seq<&'static str> {
        self.sublabels@
    }

    /// Mounts the input over the numbers the binding holds. Each position
    /// counts as entered with the number it has.
    pub fn new(bound: [T; N], sublabels: [&'static str; N]) -> (r: Self)
        ensures
            r.mirror() == bound@,
            r.labels() == sublabels@,
            r.entries() == Seq::new(N as nat, |i: int| Some(bound[i])),
    {
        let mut fields: [NumericInput<T>; N] = [NumericInput::unread(); N];
        let mut i: usize = 0;
        while i < N
            invariant
                i <= N,
                forall|k: int| 0 <= k < i ==> (#[trigger] fields[k])@ == Some(bound[k]),
            decreases N - i,
        {
            fields[i] = NumericInput::new(bound[i]);
            i += 1;
        }
        let r = MultiNumericInput { values: bound, fields, sublabels };
        r
    }

    /// The input's copy of the numbers.
    pub fn values(&self) -> (values: [T; N])
        ensures
            values@ == self.mirror(),
    {
        self.values
    }

    /// The label of the position `index`.
    pub fn sublabel(&self, index: usize) -> (label: &'static str)
        requires
            index < N,
        ensures
            label == self.labels()[index as int],
    {
        self.sublabels[index]
    }

    /// Whether the validation message of the position `index` shows: its
    /// latest entry was no number.
    pub fn shows_error(&self, index: usize) -> (r: bool)
        requires
            index < N,
        ensures
            r == (self.entries()[index as int] is None),
    {
        self.fields[index].shows_error()
    }

    /// Handles an entry at the position `index` that was read outside:
    /// `parsed` is the number it read as, if any. A number is set in the copy
    /// of the numbers, and all of them are written to the binding; an entry
    /// that is no number changes none and writes nothing.
    pub fn on_parsed(&mut self, index: usize, parsed: Option<T>) -> (written: Option<[T; N]>)
        requires
            index < N,
        ensures
            final(self).labels() == old(self).labels(),
            final(self).entries() == old(self).entries().update(index as int, parsed),
            final(self).mirror() == match parsed {
                Some(value) => old(self).mirror().update(index as int, value),
                None => old(self).mirror(),
            },
            written is Some <==> parsed is Some,
            written matches Some(values) ==> values@ == final(self).mirror(),
    {
        let mut field = self.fields[index];
        let entered = field.on_parsed(parsed);
        self.fields[index] = field;
        match entered {
            Some(value) => {
                self.values[index] = value;
                Some(self.values)
            },
            None => None,
        }
    }
}

impl<T: Numeric, const N: usize> MultiNumericInput<T, N> {
    /// Handles an input event that leaves `text` in the input at the position
    /// `index`. Where the text reads as a number, the number at that position
    /// is set to it and all numbers are written to the binding; where it does
    /// not, none changes, nothing is written, and the message of the position
    /// shows.
    pub fn on_input(&mut self, index: usize, text: &str) -> (written: Option<[T; N]>)
        requires
            index < N,
        ensures
            final(self).labels() == old(self).labels(),
            final(self).entries() == old(self).entries().update(index as int, T::parsed(text@)),
            final(self).mirror() == match T::parsed(text@) {
                Some(value) => old(self).mirror().update(index as int, value),
                None => old(self).mirror(),
            },
            written is Some <==> T::parsed(text@) is Some,
            written matches Some(values) ==> values@ == final(self).mirror(),
    {
        let parsed = T::parse(text);
        self.on_parsed(index, parsed)
    }
}

/// Setting the number at one position changes that position and no other.
pub proof fn lemma_update_changes_one_position<T>(numbers: Seq<T>, index: int, value: T)
    requires
        0 <= index < numbers.len(),
    ensures
        numbers.update(index, value).len() == numbers.len(),
        numbers.update(index, value)[index] == value,
        forall|other: int|
            0 <= other < numbers.len() && other != index ==> numbers.update(index, value)[other]
                == numbers[other],
{
}

} // verus!
