//! The resource record and the input that edits it field by field.

use crate::decimal::Numeric;
use crate::numeric::NumericInput;
use vstd::prelude::*;

verus! {

/// The fields of a resource record, in the order they are shown.
#[derive(Clone, Copy, Debug, PartialEq, Eq)]
pub enum Resource {
    Land,
    Water,
    Electricity,
    Fuel,
}

/// One value per resource.
#[derive(Debug, PartialEq)]
pub struct ResourceMap<T> {
    pub land: T,
    pub water: T,
    pub electricity: T,
    pub fuel: T,
}

impl<T: Copy> Clone for ResourceMap<T> {
    fn clone(&self) -> (copy: Self)
        ensures
            copy == *self,
    {
        *self
    }
}

impl<T: Copy> Copy for ResourceMap<T> {

}

impl Resource {
    /// The label of the field.
    pub open spec fn label_text(self) -> Seq<char> {
        match self {
            Resource::Land => "Land"@,
            Resource::Water => "Water"@,
            Resource::Electricity => "Electricity"@,
            Resource::Fuel => "Fuel"@,
        }
    }

    /// The help text of the field, which names its unit.
    pub open spec fn help_text(self) -> Seq<char> {
        match self {
            Resource::Land => "Land in square meters (m2)."@,
            Resource::Water => "Water in liters (L)."@,
            Resource::Electricity => "Electricity in kilowatt-hours (kWh)."@,
            Resource::Fuel => "Fuel in kilowatt-hours (kWh)."@,
        }
    }

    /// The fields in the order they are shown.
    pub fn all() -> (fields: [Resource; 4])
        ensures
            fields@ == seq![
                Resource::Land,
                Resource::Water,
                Resource::Electricity,
                Resource::Fuel,
            ],
    {
        let fields = [
            Resource::Land,
            Resource::Water,
            Resource::Electricity,
            Resource::Fuel,
        ];
        assert(fields@ =~= seq![
            Resource::Land,
            Resource::Water,
            Resource::Electricity,
            Resource::Fuel,
        ]);
        fields
    }

    /// The label of the field.
    pub fn label(self) -> (text: &'static str)
        ensures
            text@ == self.label_text(),
    {
        match self {
            Resource::Land => "Land",
            Resource::Water => "Water",
            Resource::Electricity => "Electricity",
            Resource::Fuel => "Fuel",
        }
    }

    /// The help text of the field.
    pub fn help(self) -> (text: &'static str)
        ensures
            text@ == self.help_text(),
    {
        match self {
            Resource::Land => "Land in square meters (m2).",
            Resource::Water => "Water in liters (L).",
            Resource::Electricity => "Electricity in kilowatt-hours (kWh).",
            Resource::Fuel => "Fuel in kilowatt-hours (kWh).",
        }
    }
}

impl<T> ResourceMap<T> {
    /// The value of `field`.
    pub open spec fn at(self, field: Resource) -> T {
        match field {
            Resource::Land => self.land,
            Resource::Water => self.water,
            Resource::Electricity => self.electricity,
            Resource::Fuel => self.fuel,
        }
    }

    /// The record with `field` set to `value` and every other field kept.
    pub open spec fn with(self, field: Resource, value: T) -> ResourceMap<T> {
        match field {
            Resource::Land => ResourceMap { land: value, ..self },
            Resource::Water => ResourceMap { water: value, ..self },
            Resource::Electricity => ResourceMap { electricity: value, ..self },
            Resource::Fuel => ResourceMap { fuel: value, ..self },
        }
    }
}

impl<T: Copy> ResourceMap<T> {
    /// The value of `field`.
    pub fn value(&self, field: Resource) -> (value: T)
        ensures
            value == self.at(field),
    {
        match field {
            Resource::Land => self.land,
            Resource::Water => self.water,
            Resource::Electricity => self.electricity,
            Resource::Fuel => self.fuel,
        }
    }

    /// Sets `field` to `value` in place.
    pub fn set(&mut self, field: Resource, value: T)
        ensures
            *final(self) == old(self).with(field, value),
    {
        match field {
            Resource::Land => self.land = value,
            Resource::Water => self.water = value,
            Resource::Electricity => self.electricity = value,
            Resource::Fuel => self.fuel = value,
        }
    }
}

/// An input over a bound resource record: one numeric input per field, all
/// editing a copy of the record that is written back whole on every change.
pub struct ResourceMapInput<T> {
    map: ResourceMap<T>,
    fields: ResourceMap<NumericInput<T>>,
}

impl<T: Copy> ResourceMapInput<T> {
    /// The input's copy of the record.
    pub closed spec fn mirror(&self) -> ResourceMap<T> {
        self.map
    }

    /// How the latest entry of each field read: its number, or `None` where
    /// it was none.
    pub closed spec fn entries(&self) -> ResourceMap<Option<T>> {
        ResourceMap {
            land: self.fields.land@,
            water: self.fields.water@,
            electricity: self.fields.electricity@,
            fuel: self.fields.fuel@,
        }
    }

    /// Mounts the input over the record the binding holds. Each field counts
    /// as entered with the value it has.
    pub fn new(bound: ResourceMap<T>) -> (r: Self)
        ensures
            r.mirror() == bound,
            forall|field: Resource| #[trigger] r.entries().at(field) == Some(bound.at(field)),
    {
        ResourceMapInput {
            map: bound,
            fields: ResourceMap {
                land: NumericInput::new(bound.land),
                water: NumericInput::new(bound.water),
                electricity: NumericInput::new(bound.electricity),
                fuel: NumericInput::new(bound.fuel),
            },
        }
    }

    /// The input's copy of the record.
    pub fn map(&self) -> (map: ResourceMap<T>)
        ensures
            map == self.mirror(),
    {
        self.map
    }

    /// Whether the validation message of `field` shows: its latest entry was
    /// no number.
    pub fn shows_error(&self, field: Resource) -> (r: bool)
        ensures
            r == (self.entries().at(field) is None),
    {
        match field {
            Resource::Land => self.fields.land.shows_error(),
            Resource::Water => self.fields.water.shows_error(),
            Resource::Electricity => self.fields.electricity.shows_error(),
            Resource::Fuel => self.fields.fuel.shows_error(),
        }
    }

    /// Handles an entry in `field` that was read outside: `parsed` is the
    /// number it read as, if any. A number is set in the copy of the record,
    /// and the whole record is written to the binding; an entry that is no
    /// number changes no field and writes nothing.
    pub fn on_parsed(&mut self, field: Resource, parsed: Option<T>) -> (written: Option<
        ResourceMap<T>,
    >)
        ensures
            final(self).entries() == old(self).entries().with(field, parsed),
            final(self).mirror() == match parsed {
                Some(value) => old(self).mirror().with(field, value),
                None => old(self).mirror(),
            },
            written == match parsed {
                Some(value) => Some(old(self).mirror().with(field, value)),
                None => None,
            },
    {
        let entered = match field {
            Resource::Land => self.fields.land.on_parsed(parsed),
            Resource::Water => self.fields.water.on_parsed(parsed),
            Resource::Electricity => self.fields.electricity.on_parsed(parsed),
            Resource::Fuel => self.fields.fuel.on_parsed(parsed),
        };
        match entered {
            Some(value) => {
                self.map.set(field, value);
                Some(self.map)
            },
            None => None,
        }
    }
}

impl<T: Numeric> ResourceMapInput<T> {
    /// Handles an input event that leaves `text` in the input of `field`.
    /// Where the text reads as a number, the field is set to it and the whole
    /// record is written to the binding; where it does not, no field changes,
    /// nothing is written, and the message of `field` shows.
    pub fn on_input(&mut self, field: Resource, text: &str) -> (written: Option<ResourceMap<T>>)
        ensures
            final(self).entries() == old(self).entries().with(field, T::parsed(text@)),
            final(self).mirror() == match T::parsed(text@) {
                Some(value) => old(self).mirror().with(field, value),
                None => old(self).mirror(),
            },
            written == match T::parsed(text@) {
                Some(value) => Some(old(self).mirror().with(field, value)),
                None => None,
            },
    {
        let parsed = T::parse(text);
        self.on_parsed(field, parsed)
    }
}

/// Setting one field of a record changes that field and no other.
pub proof fn lemma_with_changes_one_field<T>(map: ResourceMap<T>, field: Resource, value: T)
    ensures
        map.with(field, value).at(field) == value,
        forall|other: Resource| other != field ==> map.with(field, value).at(other) == map.at(other),
{
}

} // verus!
