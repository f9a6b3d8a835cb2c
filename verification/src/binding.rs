//! A two-way bound value: what the host reads is what was written last.

use vstd::prelude::*;

verus! {

/// The value a binding holds once an input handed `update` to its setter:
/// the update where there is one, the value it held where there is none.
pub open spec fn bound_after<T>(bound: T, update: Option<T>) -> T {
    match update {
        Some(value) => value,
        None => bound,
    }
}

/// A bound value owned by the host: an accessor and a setter over one value.
pub struct ValueBinding<T> {
    value: T,
}

impl<T> View for ValueBinding<T> {
    type V = T;

    /// The value the accessor returns.
    closed spec fn view(&self) -> T {
        self.value
    }
}

impl<T> ValueBinding<T> {
    /// A binding that holds `value`.
    pub fn new(value: T) -> (r: Self)
        ensures
            r@ == value,
    {
        ValueBinding { value }
    }

    /// The value written last.
    pub fn get(&self) -> (value: &T)
        ensures
            *value == self@,
    {
        &self.value
    }

    /// Writes `value`.
    pub fn set(&mut self, value: T)
        ensures
            final(self)@ == value,
    {
        self.value = value;
    }

    /// Hands the update of an input to the setter: a value is written, the
    /// lack of one leaves the binding as it is. The result says whether
    /// anything was written.
    pub fn publish(&mut self, update: Option<T>) -> (wrote: bool)
        ensures
            final(self)@ == bound_after(old(self)@, update),
            wrote == (update is Some),
    {
        match update {
            Some(value) => {
                self.value = value;
                true
            },
            None => false,
        }
    }
}

} // verus!
