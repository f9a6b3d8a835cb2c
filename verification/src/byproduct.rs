//! The byproduct record and the input that edits it field by field.

use crate::decimal::Numeric;
use crate::numeric::NumericInput;
use vstd::prelude::*;

verus! {

/// The fields of a byproduct record, in the order they are shown.
#[derive(Clone, Copy, Debug, PartialEq, Eq)]
pub enum Byproduct {
    Co2,
    Ch4,
    N2o,
    Biodiversity,
}

/// One value per byproduct.
#[derive(Debug, PartialEq)]
pub struct ByproductMap<T> {
    pub co2: T,
    pub ch4: T,
    pub n2o: T,
    pub biodiversity: T,
}

impl<T: Copy> Clone for ByproductMap<T> {
    fn clone(&self) -> (copy: Self)
        ensures
            copy == *self,
    {
        *self
    }
}

impl<T: Copy> Copy for ByproductMap<T> {

}

impl Byproduct {
    /// The label of the field.
    pub open spec fn label_text(self) -> Seq<char> {
        match self {
            Byproduct::Co2 => "CO2"@,
            Byproduct::Ch4 => "CH4"@,
            Byproduct::N2o => "N2O"@,
            Byproduct::Biodiversity => "Biodiversity"@,
        }
    }

    /// The help text of the field, which names its unit.
    pub open spec fn help_text(self) -> Seq<char> {
        match self {
            Byproduct::Co2 => "CO2 in grams."@,
            Byproduct::Ch4 => "CH4 (methane) in grams."@,
            Byproduct::N2o => "N2O (nitrous oxide) in grams."@,
            Byproduct::Biodiversity => "Effects on biodiversity, in \"pressure\"; e.g. -1 pressure means +1 to the extinction rate."@,
        }
    }

    /// The fields in the order they are shown.
    pub fn all() -> (fields: [Byproduct; 4])
        ensures
            fields@ == seq![
                Byproduct::Co2,
                Byproduct::Ch4,
                Byproduct::N2o,
                Byproduct::Biodiversity,
            ],
    {
        let fields = [
            Byproduct::Co2,
            Byproduct::Ch4,
            Byproduct::N2o,
            Byproduct::Biodiversity,
        ];
        assert(fields@ =~= seq![
            Byproduct::Co2,
            Byproduct::Ch4,
            Byproduct::N2o,
            Byproduct::Biodiversity,
        ]);
        fields
    }

    /// The label of the field.
    pub fn label(self) -> (text: &'static str)
        ensures
            text@ == self.label_text(),
    {
        match self {
            Byproduct::Co2 => "CO2",
            Byproduct::Ch4 => "CH4",
            Byproduct::N2o => "N2O",
            Byproduct::Biodiversity => "Biodiversity",
        }
    }

    /// The help text of the field.
    pub fn help(self) -> (text: &'static str)
        ensures
            text@ == self.help_text(),
    {
        match self {
            Byproduct::Co2 => "CO2 in grams.",
            Byproduct::Ch4 => "CH4 (methane) in grams.",
            Byproduct::N2o => "N2O (nitrous oxide) in grams.",
            Byproduct::Biodiversity => "Effects on biodiversity, in \"pressure\"; e.g. -1 pressure means +1 to the extinction rate.",
        }
    }
}

impl<T> ByproductMap<T> {
    /// The value of `field`.
    pub open spec fn at(self, field: Byproduct) -> T {
        match field {
            Byproduct::Co2 => self.co2,
            Byproduct::Ch4 => self.ch4,
            Byproduct::N2o => self.n2o,
            Byproduct::Biodiversity => self.biodiversity,
        }
    }

    /// The record with `field` set to `value` and every other field kept.
    pub open spec fn with(self, field: Byproduct, value: T) -> ByproductMap<T> {
        match field {
            Byproduct::Co2 => ByproductMap { co2: value, ..self },
            Byproduct::Ch4 => ByproductMap { ch4: value, ..self },
            Byproduct::N2o => ByproductMap { n2o: value, ..self },
            Byproduct::Biodiversity => ByproductMap { biodiversity: value, ..self },
        }
    }
}

impl<T: Copy> ByproductMap<T> {
    /// The value of `field`.
    pub fn value(&self, field: Byproduct) -> (value: T)
        ensures
            value == self.at(field),
    {
        match field {
            Byproduct::Co2 => self.co2,
            Byproduct::Ch4 => self.ch4,
            Byproduct::N2o => self.n2o,
            Byproduct::Biodiversity => self.biodiversity,
        }
    }

    /// Sets `field` to `value` in place.
    pub fn set(&mut self, field: Byproduct, value: T)
        ensures
            *final(self) == old(self).with(field, value),
    {
        match field {
            Byproduct::Co2 => self.co2 = value,
            Byproduct::Ch4 => self.ch4 = value,
            Byproduct::N2o => self.n2o = value,
            Byproduct::Biodiversity => self.biodiversity = value,
        }
    }
}

/// An input over a bound byproduct record: one numeric input per field, all
/// editing a copy of the record that is written back whole on every change.
pub struct ByproductMapInput<T> {
    map: ByproductMap<T>,
    fields: ByproductMap<NumericInput<T>>,
}

impl<T: Copy> ByproductMapInput<T> {
    /// The input's copy of the record.
    pub closed spec fn mirror(&self) -> ByproductMap<T> {
        self.map
    }

    /// How the latest entry of each field read: its number, or `None` where
    /// it was none.
    pub closed spec fn entries(&self) -> ByproductMap<Option<T>> {
        ByproductMap {
            co2: self.fields.co2@,
            ch4: self.fields.ch4@,
            n2o: self.fields.n2o@,
            biodiversity: self.fields.biodiversity@,
        }
    }

    /// Mounts the input over the record the binding holds. Each field counts
    /// as entered with the value it has.
    pub fn new(bound: ByproductMap<T>) -> (r: Self)
        ensures
            r.mirror() == bound,
            forall|field: Byproduct| #[trigger] r.entries().at(field) == Some(bound.at(field)),
    {
        ByproductMapInput {
            map: bound,
            fields: ByproductMap {
                co2: NumericInput::new(bound.co2),
                ch4: NumericInput::new(bound.ch4),
                n2o: NumericInput::new(bound.n2o),
                biodiversity: NumericInput::new(bound.biodiversity),
            },
        }
    }

    /// The input's copy of the record.
    pub fn map(&self) -> (map: ByproductMap<T>)
        ensures
            map == self.mirror(),
    {
        self.map
    }

    /// Whether the validation message of `field` shows: its latest entry was
    /// no number.
    pub fn shows_error(&self, field: Byproduct) -> (r: bool)
        ensures
            r == (self.entries().at(field) is None),
    {
        match field {
            Byproduct::Co2 => self.fields.co2.shows_error(),
            Byproduct::Ch4 => self.fields.ch4.shows_error(),
            Byproduct::N2o => self.fields.n2o.shows_error(),
            Byproduct::Biodiversity => self.fields.biodiversity.shows_error(),
        }
    }

    /// Handles an entry in `field` that was read outside: `parsed` is the
    /// number it read as, if any. A number is set in the copy of the record,
    /// and the whole record is written to the binding; an entry that is no
    /// number changes no field and writes nothing.
    pub fn on_parsed(&mut self, field: Byproduct, parsed: Option<T>) -> (written: Option<
        ByproductMap<T>,
    >)
        ensures
            final(self).entries() == old(self).entries().with(field, parsed),
            final(self).mirror() == match parsed {
                Some(value) => old(self).mirror().with(field, value),
                None => old(self).mirror(),
            },
            written == match parsed {
                Some(value) => Some(old(self).mirror().with(field, value)),
                None => None,
            },
    {
        let entered = match field {
            Byproduct::Co2 => self.fields.co2.on_parsed(parsed),
            Byproduct::Ch4 => self.fields.ch4.on_parsed(parsed),
            Byproduct::N2o => self.fields.n2o.on_parsed(parsed),
            Byproduct::Biodiversity => self.fields.biodiversity.on_parsed(parsed),
        };
        match entered {
            Some(value) => {
                self.map.set(field, value);
                Some(self.map)
            },
            None => None,
        }
    }
}

impl<T: Numeric> ByproductMapInput<T> {
    /// Handles an input event that leaves `text` in the input of `field`.
    /// Where the text reads as a number, the field is set to it and the whole
    /// record is written to the binding; where it does not, no field changes,
    /// nothing is written, and the message of `field` shows.
    pub fn on_input(&mut self, field: Byproduct, text: &str) -> (written: Option<ByproductMap<T>>)
        ensures
            final(self).entries() == old(self).entries().with(field, T::parsed(text@)),
            final(self).mirror() == match T::parsed(text@) {
                Some(value) => old(self).mirror().with(field, value),
                None => old(self).mirror(),
            },
            written == match T::parsed(text@) {
                Some(value) => Some(old(self).mirror().with(field, value)),
                None => None,
            },
    {
        let parsed = T::parse(text);
        self.on_parsed(field, parsed)
    }
}

/// Setting one field of a record changes that field and no other.
pub proof fn lemma_with_changes_one_field<T>(map: ByproductMap<T>, field: Byproduct, value: T)
    ensures
        map.with(field, value).at(field) == value,
        forall|other: Byproduct| other != field ==> map.with(field, value).at(other) == map.at(other),
{
}

} // verus!
