use hes_inputs::{
    Byproduct, ByproductMap, ByproductMapInput, Feedstock, FeedstockMap, FeedstockMapInput,
    MultiNumericInput, Output, OutputMap, OutputMapInput, Resource, ResourceMap,
    ResourceMapInput, ValueBinding,
};

#[test]
fn editing_water_writes_the_record_once() {
    let start = ResourceMap { land: 0i64, water: 0, electricity: 0, fuel: 0 };
    let mut binding = ValueBinding::new(start);
    let mut input = ResourceMapInput::new(*binding.get());
    let mut writes = 0;
    if binding.publish(input.on_input(Resource::Water, "150")) {
        writes += 1;
    }
    assert_eq!(writes, 1);
    assert_eq!(*binding.get(), ResourceMap { land: 0, water: 150, electricity: 0, fuel: 0 });
    assert_eq!(input.map(), *binding.get());
}

#[test]
fn editing_water_as_a_float() {
    let start = ResourceMap { land: 0.0f32, water: 0.0, electricity: 0.0, fuel: 0.0 };
    let mut input = ResourceMapInput::new(start);
    let written = input.on_parsed(Resource::Water, "150".parse::<f32>().ok());
    assert_eq!(written, Some(ResourceMap { land: 0.0, water: 150.0, electricity: 0.0, fuel: 0.0 }));
}

#[test]
fn each_resource_field_changes_alone() {
    let start = ResourceMap { land: 1i64, water: 2, electricity: 3, fuel: 4 };
    for field in Resource::all() {
        let mut input = ResourceMapInput::new(start);
        let written = input.on_input(field, "77").unwrap();
        for other in Resource::all() {
            let expected = if other == field { 77 } else { start.value(other) };
            assert_eq!(written.value(other), expected);
        }
    }
}

#[test]
fn a_failed_resource_entry_writes_nothing() {
    let start = ResourceMap { land: 1i64, water: 2, electricity: 3, fuel: 4 };
    let mut input = ResourceMapInput::new(start);
    assert_eq!(input.on_input(Resource::Fuel, "lots"), None);
    assert_eq!(input.map(), start);
    assert!(input.shows_error(Resource::Fuel));
    assert!(!input.shows_error(Resource::Land));
    assert!(!input.shows_error(Resource::Water));
    assert!(!input.shows_error(Resource::Electricity));
    assert_eq!(
        input.on_input(Resource::Land, "9"),
        Some(ResourceMap { land: 9, water: 2, electricity: 3, fuel: 4 })
    );
    assert!(input.shows_error(Resource::Fuel));
    assert_eq!(
        input.on_input(Resource::Fuel, "5"),
        Some(ResourceMap { land: 9, water: 2, electricity: 3, fuel: 5 })
    );
    assert!(!input.shows_error(Resource::Fuel));
}

#[test]
fn resource_record_set_and_value() {
    let mut map = ResourceMap { land: 1u32, water: 2, electricity: 3, fuel: 4 };
    map.set(Resource::Electricity, 30);
    assert_eq!(map, ResourceMap { land: 1, water: 2, electricity: 30, fuel: 4 });
    assert_eq!(map.value(Resource::Electricity), 30);
    assert_eq!(map.value(Resource::Land), 1);
}

#[test]
fn resource_catalog() {
    assert_eq!(
        Resource::all(),
        [Resource::Land, Resource::Water, Resource::Electricity, Resource::Fuel]
    );
    let labels: Vec<&str> = Resource::all().iter().map(|f| f.label()).collect();
    assert_eq!(labels, ["Land", "Water", "Electricity", "Fuel"]);
    let help: Vec<&str> = Resource::all().iter().map(|f| f.help()).collect();
    assert_eq!(
        help,
        [
            "Land in square meters (m2).",
            "Water in liters (L).",
            "Electricity in kilowatt-hours (kWh).",
            "Fuel in kilowatt-hours (kWh).",
        ]
    );
}

#[test]
fn each_byproduct_field_changes_alone() {
    let start = ByproductMap { co2: 1i64, ch4: 2, n2o: 3, biodiversity: 4 };
    for field in Byproduct::all() {
        let mut input = ByproductMapInput::new(start);
        let written = input.on_input(field, "-1").unwrap();
        for other in Byproduct::all() {
            let expected = if other == field { -1 } else { start.value(other) };
            assert_eq!(written.value(other), expected);
        }
        assert_eq!(input.map(), written);
    }
}

#[test]
fn a_failed_byproduct_entry_writes_nothing() {
    let start = ByproductMap { co2: 1i64, ch4: 2, n2o: 3, biodiversity: 4 };
    let mut input = ByproductMapInput::new(start);
    assert_eq!(input.on_input(Byproduct::Ch4, "methane"), None);
    assert_eq!(input.map(), start);
    assert!(input.shows_error(Byproduct::Ch4));
    assert!(!input.shows_error(Byproduct::Co2));
    assert_eq!(
        input.on_parsed(Byproduct::Biodiversity, Some(-1)),
        Some(ByproductMap { co2: 1, ch4: 2, n2o: 3, biodiversity: -1 })
    );
}

#[test]
fn byproduct_catalog() {
    assert_eq!(
        Byproduct::all(),
        [Byproduct::Co2, Byproduct::Ch4, Byproduct::N2o, Byproduct::Biodiversity]
    );
    let labels: Vec<&str> = Byproduct::all().iter().map(|f| f.label()).collect();
    assert_eq!(labels, ["CO2", "CH4", "N2O", "Biodiversity"]);
    let help: Vec<&str> = Byproduct::all().iter().map(|f| f.help()).collect();
    assert_eq!(
        help,
        [
            "CO2 in grams.",
            "CH4 (methane) in grams.",
            "N2O (nitrous oxide) in grams.",
            "Effects on biodiversity, in \"pressure\"; e.g. -1 pressure means +1 to the extinction rate.",
        ]
    );
}

#[test]
fn each_output_field_changes_alone() {
    let start = OutputMap { fuel: 1u64, electricity: 2, plant_calories: 3, animal_calories: 4 };
    for field in Output::all() {
        let mut input = OutputMapInput::new(start);
        let written = input.on_input(field, "1000").unwrap();
        for other in Output::all() {
            let expected = if other == field { 1000 } else { start.value(other) };
            assert_eq!(written.value(other), expected);
        }
        assert_eq!(input.map(), written);
    }
}

#[test]
fn a_failed_output_entry_writes_nothing() {
    let start = OutputMap { fuel: 1u64, electricity: 2, plant_calories: 3, animal_calories: 4 };
    let mut input = OutputMapInput::new(start);
    assert_eq!(input.on_input(Output::PlantCalories, "-3"), None);
    assert_eq!(input.map(), start);
    assert!(input.shows_error(Output::PlantCalories));
    assert!(!input.shows_error(Output::AnimalCalories));
}

#[test]
fn output_catalog() {
    assert_eq!(
        Output::all(),
        [Output::Fuel, Output::Electricity, Output::PlantCalories, Output::AnimalCalories]
    );
    let labels: Vec<&str> = Output::all().iter().map(|f| f.label()).collect();
    assert_eq!(labels, ["Fuel", "Electricity", "Plant Calories", "Animal Calories"]);
    let help: Vec<&str> = Output::all().iter().map(|f| f.help()).collect();
    assert_eq!(
        help,
        [
            "Fuel in kilowatt-hours (kWh).",
            "Electricity in kilowatt-hours (kWh).",
            "Plant calories in kilocalories (kcal).",
            "Animal calories in kilocalories (kcal).",
        ]
    );
}

#[test]
fn each_feedstock_field_changes_alone() {
    let start = FeedstockMap { coal: 1i32, oil: 2, thorium: 3, uranium: 4, lithium: 5 };
    for field in Feedstock::all() {
        let mut input = FeedstockMapInput::new(start);
        let written = input.on_input(field, "60").unwrap();
        for other in Feedstock::all() {
            let expected = if other == field { 60 } else { start.value(other) };
            assert_eq!(written.value(other), expected);
        }
        assert_eq!(input.map(), written);
    }
}

#[test]
fn a_failed_feedstock_entry_writes_nothing() {
    let start = FeedstockMap { coal: 1i32, oil: 2, thorium: 3, uranium: 4, lithium: 5 };
    let mut input = FeedstockMapInput::new(start);
    assert_eq!(input.on_input(Feedstock::Lithium, "3000000000"), None);
    assert_eq!(input.map(), start);
    assert!(input.shows_error(Feedstock::Lithium));
    assert!(!input.shows_error(Feedstock::Coal));
    assert_eq!(
        input.on_input(Feedstock::Lithium, "3"),
        Some(FeedstockMap { coal: 1, oil: 2, thorium: 3, uranium: 4, lithium: 3 })
    );
    assert!(!input.shows_error(Feedstock::Lithium));
}

#[test]
fn feedstock_catalog() {
    assert_eq!(
        Feedstock::all(),
        [
            Feedstock::Coal,
            Feedstock::Oil,
            Feedstock::Thorium,
            Feedstock::Uranium,
            Feedstock::Lithium,
        ]
    );
    let labels: Vec<&str> = Feedstock::all().iter().map(|f| f.label()).collect();
    assert_eq!(labels, ["Coal", "Oil", "Thorium", "Uranium", "Lithium"]);
    let help: Vec<&str> = Feedstock::all().iter().map(|f| f.help()).collect();
    assert_eq!(
        help,
        [
            "Coal in grams (g).",
            "Oil in liters (L).",
            "Thorium in grams (g).",
            "Uranium in grams (g).",
            "Lithium in grams (g).",
        ]
    );
}

#[test]
fn multi_numeric_edits_one_position() {
    let mut input = MultiNumericInput::new([1i64, 2, 3], ["low", "mid", "high"]);
    assert_eq!(input.values(), [1, 2, 3]);
    assert_eq!(input.sublabel(0), "low");
    assert_eq!(input.sublabel(1), "mid");
    assert_eq!(input.sublabel(2), "high");
    assert_eq!(input.on_input(1, "20"), Some([1, 20, 3]));
    assert_eq!(input.values(), [1, 20, 3]);
    assert_eq!(input.on_input(2, "30"), Some([1, 20, 30]));
    assert_eq!(input.on_input(0, "ten"), None);
    assert_eq!(input.values(), [1, 20, 30]);
    assert!(input.shows_error(0));
    assert!(!input.shows_error(1));
    assert!(!input.shows_error(2));
}

#[test]
fn multi_numeric_over_floats() {
    let mut input = MultiNumericInput::new([0.5f32, 1.5], ["a", "b"]);
    assert_eq!(input.on_parsed(1, "2.5".parse::<f32>().ok()), Some([0.5, 2.5]));
    assert_eq!(input.on_parsed(0, "".parse::<f32>().ok()), None);
    assert!(input.shows_error(0));
    assert_eq!(input.values(), [0.5, 2.5]);
}

#[test]
fn multi_numeric_over_no_numbers() {
    let input = MultiNumericInput::<u32, 0>::new([], []);
    assert_eq!(input.values(), [0u32; 0]);
}
