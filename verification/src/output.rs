//! The output record and the input that edits it field by field.

use crate::decimal::Numeric;
use crate::numeric::NumericInput;
use vstd::prelude::*;

verus! {

/// The fields of an output record, in the order they are shown.
#[derive(Clone, Copy, Debug, PartialEq, Eq)]
pub enum Output {
    Fuel,
    Electricity,
    PlantCalories,
    AnimalCalories,
}

/// One value per output.
#[derive(Debug, PartialEq)]
pub struct OutputMap<T> {
    pub fuel: T,
    pub electricity: T,
    pub plant_calories: T,
    pub animal_calories: T,
}

impl<T: Copy> Clone for OutputMap<T> {
    fn clone(&self) -> (copy: Self)
        ensures
            copy == *self,
    {
        *self
    }
}

impl<T: Copy> Copy for OutputMap<T> {

}

impl Output {
    /// The label of the field.
    pub open spec fn label_text(self) -> Seq<char> {
        match self {
            Output::Fuel => "Fuel"@,
            Output::Electricity => "Electricity"@,
            Output::PlantCalories => "Plant Calories"@,
            Output::AnimalCalories => "Animal Calories"@,
        }
    }

    /// The help text of the field, which names its unit.
    pub open spec fn help_text(self) -> Seq<char> {
        match self {
            Output::Fuel => "Fuel in kilowatt-hours (kWh)."@,
            Output::Electricity => "Electricity in kilowatt-hours (kWh)."@,
            Output::PlantCalories => "Plant calories in kilocalories (kcal)."@,
            Output::AnimalCalories => "Animal calories in kilocalories (kcal)."@,
        }
    }

    /// The fields in the order they are shown.
    pub fn all() -> (fields: [Output; 4])
        ensures
            fields@ == seq![
                Output::Fuel,
                Output::Electricity,
                Output::PlantCalories,
                Output::AnimalCalories,
            ],
    {
        let fields = [
            Output::Fuel,
            Output::Electricity,
            Output::PlantCalories,
            Output::AnimalCalories,
        ];
        assert(fields@ =~= seq![
            Output::Fuel,
            Output::Electricity,
            Output::PlantCalories,
            Output::AnimalCalories,
        ]);
        fields
    }

    /// The label of the field.
    pub fn label(self) -> (text: &'static str)
        ensures
            text@ == self.label_text(),
    {
        match self {
            Output::Fuel => "Fuel",
            Output::Electricity => "Electricity",
            Output::PlantCalories => "Plant Calories",
            Output::AnimalCalories => "Animal Calories",
        }
    }

    /// The help text of the field.
    pub fn help(self) -> (text: &'static str)
        ensures
            text@ == self.help_text(),
    {
        match self {
            Output::Fuel => "Fuel in kilowatt-hours (kWh).",
            Output::Electricity => "Electricity in kilowatt-hours (kWh).",
            Output::PlantCalories => "Plant calories in kilocalories (kcal).",
            Output::AnimalCalories => "Animal calories in kilocalories (kcal).",
        }
    }
}

impl<T> OutputMap<T> {
    /// The value of `field`.
    pub open spec fn at(self, field: Output) -> T {
        match field {
            Output::Fuel => self.fuel,
            Output::Electricity => self.electricity,
            Output::PlantCalories => self.plant_calories,
            Output::AnimalCalories => self.animal_calories,
        }
    }

    /// The record with `field` set to `value` and every other field kept.
    pub open spec fn with(self, field: Output, value: T) -> OutputMap<T> {
        match field {
            Output::Fuel => OutputMap { fuel: value, ..self },
            Output::Electricity => OutputMap { electricity: value, ..self },
            Output::PlantCalories => OutputMap { plant_calories: value, ..self },
            Output::AnimalCalories => OutputMap { animal_calories: value, ..self },
        }
    }
}

impl<T: Copy> OutputMap<T> {
    /// The value of `field`.
    pub fn value(&self, field: Output) -> (value: T)
        ensures
            value == self.at(field),
    {
        match field {
            Output::Fuel => self.fuel,
            Output::Electricity => self.electricity,
            Output::PlantCalories => self.plant_calories,
            Output::AnimalCalories => self.animal_calories,
        }
    }

    /// Sets `field` to `value` in place.
    pub fn set(&mut self, field: Output, value: T)
        ensures
            *final(self) == old(self).with(field, value),
    {
        match field {
            Output::Fuel => self.fuel = value,
            Output::Electricity => self.electricity = value,
            Output::PlantCalories => self.plant_calories = value,
            Output::AnimalCalories => self.animal_calories = value,
        }
    }
}

/// An input over a bound output record: one numeric input per field, all
/// editing a copy of the record that is written back whole on every change.
pub struct OutputMapInput<T> {
    map: OutputMap<T>,
    fields: OutputMap<NumericInput<T>>,
}

impl<T: Copy> OutputMapInput<T> {
    /// The input's copy of the record.
    pub closed spec fn mirror(&self) -> OutputMap<T> {
        self.map
    }

    /// How the latest entry of each field read: its number, or `None` where
    /// it was none.
    pub closed spec fn entries(&self) -> OutputMap<Option<T>> {
        OutputMap {
            fuel: self.fields.fuel@,
            electricity: self.fields.electricity@,
            plant_calories: self.fields.plant_calories@,
            animal_calories: self.fields.animal_calories@,
        }
    }

    /// Mounts the input over the record the binding holds. Each field counts
    /// as entered with the value it has.
    pub fn new(bound: OutputMap<T>) -> (r: Self)
        ensures
            r.mirror() == bound,
            forall|field: Output| #[trigger] r.entries().at(field) == Some(bound.at(field)),
    {
        OutputMapInput {
            map: bound,
            fields: OutputMap {
                fuel: NumericInput::new(bound.fuel),
                electricity: NumericInput::new(bound.electricity),
                plant_calories: NumericInput::new(bound.plant_calories),
                animal_calories: NumericInput::new(bound.animal_calories),
            },
        }
    }

    /// The input's copy of the record.
    pub fn map(&self) -> (map: OutputMap<T>)
        ensures
            map == self.mirror(),
    {
        self.map
    }

    /// Whether the validation message of `field` shows: its latest entry was
    /// no number.
    pub fn shows_error(&self, field: Output) -> (r: bool)
        ensures
            r == (self.entries().at(field) is None),
    {
        match field {
            Output::Fuel => self.fields.fuel.shows_error(),
            Output::Electricity => self.fields.electricity.shows_error(),
            Output::PlantCalories => self.fields.plant_calories.shows_error(),
            Output::AnimalCalories => self.fields.animal_calories.shows_error(),
        }
    }

    /// Handles an entry in `field` that was read outside: `parsed` is the
    /// number it read as, if any. A number is set in the copy of the record,
    /// and the whole record is written to the binding; an entry that is no
    /// number changes no field and writes nothing.
    pub fn on_parsed(&mut self, field: Output, parsed: Option<T>) -> (written: Option<
        OutputMap<T>,
    >)
        ensures
            final(self).entries() == old(self).entries().with(field, parsed),
            final(self).mirror() == match parsed {
                Some(value) => old(self).mirror().with(field, value),
                None => old(self).mirror(),
            },
            written == match parsed {
                Some(value) => Some(old(self).mirror().with(field, value)),
                None => None,
            },
    {
        let entered = match field {
            Output::Fuel => self.fields.fuel.on_parsed(parsed),
            Output::Electricity => self.fields.electricity.on_parsed(parsed),
            Output::PlantCalories => self.fields.plant_calories.on_parsed(parsed),
            Output::AnimalCalories => self.fields.animal_calories.on_parsed(parsed),
        };
        match entered {
            Some(value) => {
                self.map.set(field, value);
                Some(self.map)
            },
            None => None,
        }
    }
}

impl<T: Numeric> OutputMapInput<T> {
    /// Handles an input event that leaves `text` in the input of `field`.
    /// Where the text reads as a number, the field is set to it and the whole
    /// record is written to the binding; where it does not, no field changes,
    /// nothing is written, and the message of `field` shows.
    pub fn on_input(&mut self, field: Output, text: &str) -> (written: Option<OutputMap<T>>)
        ensures
            final(self).entries() == old(self).entries().with(field, T::parsed(text@)),
            final(self).mirror() == match T::parsed(text@) {
                Some(value) => old(self).mirror().with(field, value),
                None => old(self).mirror(),
            },
            written == match T::parsed(text@) {
                Some(value) => Some(old(self).mirror().with(field, value)),
                None => None,
            },
    {
        let parsed = T::parse(text);
        self.on_parsed(field, parsed)
    }
}

/// Setting one field of a record changes that field and no other.
pub proof fn lemma_with_changes_one_field<T>(map: OutputMap<T>, field: Output, value: T)
    ensures
        map.with(field, value).at(field) == value,
        forall|other: Output| other != field ==> map.with(field, value).at(other) == map.at(other),
{
}

} // verus!
