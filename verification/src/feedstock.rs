//! The feedstock record and the input that edits it field by field.

use crate::decimal::Numeric;
use crate::numeric::NumericInput;
use vstd::prelude::*;

verus! {

/// The fields of a feedstock record, in the order they are shown.
#[derive(Clone, Copy, Debug, PartialEq, Eq)]
pub enum Feedstock {
    Coal,
    Oil,
    Thorium,
    Uranium,
    Lithium,
}

/// One value per feedstock.
#[derive(Debug, PartialEq)]
pub struct FeedstockMap<T> {
    pub coal: T,
    pub oil: T,
    pub thorium: T,
    pub uranium: T,
    pub lithium: T,
}

impl<T: Copy> Clone for FeedstockMap<T> {
    fn clone(&self) -> (copy: Self)
        ensures
            copy == *self,
    {
        *self
    }
}

impl<T: Copy> Copy for FeedstockMap<T> {

}

impl Feedstock {
    /// The label of the field.
    pub open spec fn label_text(self) -> Seq<char> {
        match self {
            Feedstock::Coal => "Coal"@,
            Feedstock::Oil => "Oil"@,
            Feedstock::Thorium => "Thorium"@,
            Feedstock::Uranium => "Uranium"@,
            Feedstock::Lithium => "Lithium"@,
        }
    }

    /// The help text of the field, which names its unit.
    pub open spec fn help_text(self) -> Seq<char> {
        match self {
            Feedstock::Coal => "Coal in grams (g)."@,
            Feedstock::Oil => "Oil in liters (L)."@,
            Feedstock::Thorium => "Thorium in grams (g)."@,
            Feedstock::Uranium => "Uranium in grams (g)."@,
            Feedstock::Lithium => "Lithium in grams (g)."@,
        }
    }

    /// The fields in the order they are shown.
    pub fn all() -> (fields: [Feedstock; 5])
        ensures
            fields@ == seq![
                Feedstock::Coal,
                Feedstock::Oil,
                Feedstock::Thorium,
                Feedstock::Uranium,
                Feedstock::Lithium,
            ],
    {
        let fields = [
            Feedstock::Coal,
            Feedstock::Oil,
            Feedstock::Thorium,
            Feedstock::Uranium,
            Feedstock::Lithium,
        ];
        assert(fields@ =~= seq![
            Feedstock::Coal,
            Feedstock::Oil,
            Feedstock::Thorium,
            Feedstock::Uranium,
            Feedstock::Lithium,
        ]);
        fields
    }

    /// The label of the field.
    pub fn label(self) -> (text: &'static str)
        ensures
            text@ == self.label_text(),
    {
        match self {
            Feedstock::Coal => "Coal",
            Feedstock::Oil => "Oil",
            Feedstock::Thorium => "Thorium",
            Feedstock::Uranium => "Uranium",
            Feedstock::Lithium => "Lithium",
        }
    }

    /// The help text of the field.
    pub fn help(self) -> (text: &'static str)
        ensures
            text@ == self.help_text(),
    {
        match self {
            Feedstock::Coal => "Coal in grams (g).",
            Feedstock::Oil => "Oil in liters (L).",
            Feedstock::Thorium => "Thorium in grams (g).",
            Feedstock::Uranium => "Uranium in grams (g).",
            Feedstock::Lithium => "Lithium in grams (g).",
        }
    }
}

impl<T> FeedstockMap<T> {
    /// The value of `field`.
    pub open spec fn at(self, field: Feedstock) -> T {
        match field {
            Feedstock::Coal => self.coal,
            Feedstock::Oil => self.oil,
            Feedstock::Thorium => self.thorium,
            Feedstock::Uranium => self.uranium,
            Feedstock::Lithium => self.lithium,
        }
    }

    /// The record with `field` set to `value` and every other field kept.
    pub open spec fn with(self, field: Feedstock, value: T) -> FeedstockMap<T> {
        match field {
            Feedstock::Coal => FeedstockMap { coal: value, ..self },
            Feedstock::Oil => FeedstockMap { oil: value, ..self },
            Feedstock::Thorium => FeedstockMap { thorium: value, ..self },
            Feedstock::Uranium => FeedstockMap { uranium: value, ..self },
            Feedstock::Lithium => FeedstockMap { lithium: value, ..self },
        }
    }
}

impl<T: Copy> FeedstockMap<T> {
    /// The value of `field`.
    pub fn value(&self, field: Feedstock) -> (value: T)
        ensures
            value == self.at(field),
    {
        match field {
            Feedstock::Coal => self.coal,
            Feedstock::Oil => self.oil,
            Feedstock::Thorium => self.thorium,
            Feedstock::Uranium => self.uranium,
            Feedstock::Lithium => self.lithium,
        }
    }

    /// Sets `field` to `value` in place.
    pub fn set(&mut self, field: Feedstock, value: T)
        ensures
            *final(self) == old(self).with(field, value),
    {
        match field {
            Feedstock::Coal => self.coal = value,
            Feedstock::Oil => self.oil = value,
            Feedstock::Thorium => self.thorium = value,
            Feedstock::Uranium => self.uranium = value,
            Feedstock::Lithium => self.lithium = value,
        }
    }
}

/// An input over a bound feedstock record: one numeric input per field, all
/// editing a copy of the record that is written back whole on every change.
pub struct FeedstockMapInput<T> {
    map: FeedstockMap<T>,
    fields: FeedstockMap<NumericInput<T>>,
}

impl<T: Copy> FeedstockMapInput<T> {
    /// The input's copy of the record.
    pub closed spec fn mirror(&self) -> FeedstockMap<T> {
        self.map
    }

    /// How the latest entry of each field read: its number, or `None` where
    /// it was none.
    pub closed spec fn entries(&self) -> FeedstockMap<Option<T>> {
        FeedstockMap {
            coal: self.fields.coal@,
            oil: self.fields.oil@,
            thorium: self.fields.thorium@,
            uranium: self.fields.uranium@,
            lithium: self.fields.lithium@,
        }
    }

    /// Mounts the input over the record the binding holds. Each field counts
    /// as entered with the value it has.
    pub fn new(bound: FeedstockMap<T>) -> (r: Self)
        ensures
            r.mirror() == bound,
            forall|field: Feedstock| #[trigger] r.entries().at(field) == Some(bound.at(field)),
    {
        FeedstockMapInput {
            map: bound,
            fields: FeedstockMap {
                coal: NumericInput::new(bound.coal),
                oil: NumericInput::new(bound.oil),
                thorium: NumericInput::new(bound.thorium),
                uranium: NumericInput::new(bound.uranium),
                lithium: NumericInput::new(bound.lithium),
            },
        }
    }

    /// The input's copy of the record.
    pub fn map(&self) -> (map: FeedstockMap<T>)
        ensures
            map == self.mirror(),
    {
        self.map
    }

    /// Whether the validation message of `field` shows: its latest entry was
    /// no number.
    pub fn shows_error(&self, field: Feedstock) -> (r: bool)
        ensures
            r == (self.entries().at(field) is None),
    {
        match field {
            Feedstock::Coal => self.fields.coal.shows_error(),
            Feedstock::Oil => self.fields.oil.shows_error(),
            Feedstock::Thorium => self.fields.thorium.shows_error(),
            Feedstock::Uranium => self.fields.uranium.shows_error(),
            Feedstock::Lithium => self.fields.lithium.shows_error(),
        }
    }

    /// Handles an entry in `field` that was read outside: `parsed` is the
    /// number it read as, if any. A number is set in the copy of the record,
    /// and the whole record is written to the binding; an entry that is no
    /// number changes no field and writes nothing.
    pub fn on_parsed(&mut self, field: Feedstock, parsed: Option<T>) -> (written: Option<
        FeedstockMap<T>,
    >)
        ensures
            final(self).entries() == old(self).entries().with(field, parsed),
            final(self).mirror() == match parsed {
                Some(value) => old(self).mirror().with(field, value),
                None => old(self).mirror(),
            },
            written == match parsed {
                Some(value) => Some(old(self).mirror().with(field, value)),
                None => None,
            },
    {
        let entered = match field {
            Feedstock::Coal => self.fields.coal.on_parsed(parsed),
            Feedstock::Oil => self.fields.oil.on_parsed(parsed),
            Feedstock::Thorium => self.fields.thorium.on_parsed(parsed),
            Feedstock::Uranium => self.fields.uranium.on_parsed(parsed),
            Feedstock::Lithium => self.fields.lithium.on_parsed(parsed),
        };
        match entered {
            Some(value) => {
                self.map.set(field, value);
                Some(self.map)
            },
            None => None,
        }
    }
}

impl<T: Numeric> FeedstockMapInput<T> {
    /// Handles an input event that leaves `text` in the input of `field`.
    /// Where the text reads as a number, the field is set to it and the whole
    /// record is written to the binding; where it does not, no field changes,
    /// nothing is written, and the message of `field` shows.
    pub fn on_input(&mut self, field: Feedstock, text: &str) -> (written: Option<FeedstockMap<T>>)
        ensures
            final(self).entries() == old(self).entries().with(field, T::parsed(text@)),
            final(self).mirror() == match T::parsed(text@) {
                Some(value) => old(self).mirror().with(field, value),
                None => old(self).mirror(),
            },
            written == match T::parsed(text@) {
                Some(value) => Some(old(self).mirror().with(field, value)),
                None => None,
            },
    {
        let parsed = T::parse(text);
        self.on_parsed(field, parsed)
    }
}

/// Setting one field of a record changes that field and no other.
pub proof fn lemma_with_changes_one_field<T>(map: FeedstockMap<T>, field: Feedstock, value: T)
    ensures
        map.with(field, value).at(field) == value,
        forall|other: Feedstock| other != field ==> map.with(field, value).at(other) == map.at(other),
{
}

} // verus!
