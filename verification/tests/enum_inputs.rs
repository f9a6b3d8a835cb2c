use hes_inputs::{Describe, EnumInput, MultiEnumInput, Variants};

fn strings(items: &[&str]) -> Vec<String> {
    items.iter().map(|s| s.to_string()).collect()
}

fn seasons() -> Variants {
    Variants::new(
        strings(&["Spring", "Summer", "Autumn", "Winter"]),
        strings(&["spring", "summer", "autumn", "winter"]),
    )
    .unwrap()
}

#[derive(Clone, Copy, PartialEq, Debug)]
enum Season {
    Spring,
    Summer,
    Autumn,
    Winter,
}

impl Describe for Season {
    fn describe(&self) -> &'static str {
        match self {
            Season::Spring => "Things grow.",
            Season::Summer => "It is warm.",
            Season::Autumn => "Leaves fall.",
            Season::Winter => "It is cold.",
        }
    }
}

#[test]
fn variants_keep_labels_and_texts_in_order() {
    let variants = seasons();
    assert_eq!(variants.len(), 4);
    assert_eq!(variants.label(0), "Spring");
    assert_eq!(variants.label(3), "Winter");
    assert_eq!(variants.text(0), "spring");
    assert_eq!(variants.text(2), "autumn");
}

#[test]
fn variants_with_a_repeated_label_are_refused() {
    assert!(Variants::new(strings(&["A", "B", "A"]), strings(&["a", "b", "c"])).is_none());
    assert!(Variants::new(strings(&["A", "A"]), strings(&["a", "b"])).is_none());
}

#[test]
fn variants_with_a_missing_text_are_refused() {
    assert!(Variants::new(strings(&["A", "B"]), strings(&["a"])).is_none());
    assert!(Variants::new(strings(&["A"]), strings(&["a", "b"])).is_none());
}

#[test]
fn variants_may_share_a_text() {
    let variants = Variants::new(strings(&["A", "B"]), strings(&["same", "same"])).unwrap();
    assert_eq!(variants.position("B"), Some(1));
}

#[test]
fn no_variants_at_all() {
    let variants = Variants::new(Vec::new(), Vec::new()).unwrap();
    assert_eq!(variants.len(), 0);
    assert_eq!(variants.position("A"), None);
    assert!(EnumInput::new(variants, 0).is_none());
}

#[test]
fn every_label_finds_its_variant() {
    let variants = seasons();
    for variant in 0..variants.len() {
        let label = variants.label(variant).to_string();
        assert_eq!(variants.position(&label), Some(variant));
    }
    assert_eq!(variants.position("spring"), None);
    assert_eq!(variants.position(""), None);
    assert_eq!(variants.position("Spring "), None);
}

#[test]
fn enum_input_selects_the_bound_variant() {
    let input = EnumInput::new(seasons(), 2).unwrap();
    assert_eq!(input.len(), 4);
    assert_eq!(input.selected(), 2);
    let flags: Vec<bool> = (0..input.len()).map(|v| input.is_selected(v)).collect();
    assert_eq!(flags, [false, false, true, false]);
    assert_eq!(input.label(2), "Autumn");
    assert_eq!(input.text(2), "autumn");
}

#[test]
fn enum_input_refuses_a_variant_that_is_not_on_offer() {
    assert!(EnumInput::new(seasons(), 4).is_none());
    assert!(EnumInput::new(seasons(), usize::MAX).is_none());
}

#[test]
fn enum_input_writes_the_variant_of_the_chosen_label() {
    let mut input = EnumInput::new(seasons(), 0).unwrap();
    assert_eq!(input.position("Winter"), Some(3));
    assert_eq!(input.on_change("Winter"), 3);
    assert_eq!(input.selected(), 3);
    assert!(input.is_selected(3));
    assert!(!input.is_selected(0));
    assert_eq!(input.on_change("Spring"), 0);
    assert_eq!(input.selected(), 0);
    assert_eq!(input.position("winter"), None);
}

fn multi() -> MultiEnumInput {
    MultiEnumInput::new(
        seasons(),
        strings(&["Things grow.", "It is warm.", "Leaves fall.", "It is cold."]),
    )
    .unwrap()
}

#[test]
fn clicking_an_unselected_variant_appends_it() {
    let input = multi();
    assert_eq!(input.on_click(vec![], 2), [2]);
    assert_eq!(input.on_click(vec![3, 0], 2), [3, 0, 2]);
    assert_eq!(input.on_click(vec![3, 0, 2], 1), [3, 0, 2, 1]);
}

#[test]
fn clicking_a_selected_variant_removes_it() {
    let input = multi();
    assert_eq!(input.on_click(vec![3, 0, 2], 0), [3, 2]);
    assert_eq!(input.on_click(vec![3, 0, 2], 3), [0, 2]);
    assert_eq!(input.on_click(vec![3, 0, 2], 2), [3, 0]);
    assert_eq!(input.on_click(vec![1], 1), Vec::<usize>::new());
}

#[test]
fn clicking_removes_every_occurrence() {
    let input = multi();
    assert_eq!(input.on_click(vec![1, 2, 1, 3, 1], 1), [2, 3]);
}

#[test]
fn selection_order_is_click_order() {
    let input = multi();
    let mut selection = Vec::new();
    for variant in [2, 0, 3, 0, 1, 0] {
        selection = input.on_click(selection, variant);
    }
    assert_eq!(selection, [2, 3, 1, 0]);
}

#[test]
fn a_selection_without_repeats_stays_without_repeats() {
    let input = multi();
    let mut selection: Vec<usize> = Vec::new();
    for variant in [0, 1, 2, 1, 3, 3, 0, 2, 2, 1, 0] {
        selection = input.on_click(selection, variant);
        for (i, a) in selection.iter().enumerate() {
            for b in selection.iter().skip(i + 1) {
                assert_ne!(a, b);
            }
        }
    }
}

#[test]
fn a_repeat_of_another_variant_survives_a_click() {
    let input = multi();
    assert_eq!(input.on_click(vec![1, 1], 2), [1, 1, 2]);
}

#[test]
fn selected_marks_follow_the_bound_selection() {
    let input = multi();
    let selection = vec![3, 1];
    let marks: Vec<bool> = (0..input.len()).map(|v| input.is_selected(&selection, v)).collect();
    assert_eq!(marks, [false, true, false, true]);
}

#[test]
fn tooltip_shows_only_while_hovered() {
    let mut input = multi();
    for variant in 0..input.len() {
        assert_eq!(input.tooltip(variant), None);
    }
    input.on_hover(1, true);
    assert_eq!(input.tooltip(1), Some("It is warm."));
    assert_eq!(input.tooltip(0), None);
    assert_eq!(input.tooltip(2), None);
    input.on_hover(3, true);
    assert_eq!(input.tooltip(3), Some("It is cold."));
    assert_eq!(input.tooltip(1), Some("It is warm."));
    input.on_hover(1, false);
    assert_eq!(input.tooltip(1), None);
    assert_eq!(input.tooltip(3), Some("It is cold."));
    assert_eq!(input.text(3), "winter");
}

#[test]
fn multi_enum_needs_one_description_per_variant() {
    assert!(MultiEnumInput::new(seasons(), strings(&["a", "b", "c"])).is_none());
    assert!(MultiEnumInput::new(seasons(), strings(&["a", "b", "c", "d", "e"])).is_none());
}

#[test]
fn descriptions_come_from_the_values() {
    let values = vec![Season::Spring, Season::Summer, Season::Autumn, Season::Winter];
    let mut input = MultiEnumInput::described_by(seasons(), &values).unwrap();
    for variant in 0..input.len() {
        input.on_hover(variant, true);
        assert_eq!(input.tooltip(variant), Some(values[variant].describe()));
    }
    assert!(MultiEnumInput::described_by(seasons(), &values[..3].to_vec()).is_none());
}
