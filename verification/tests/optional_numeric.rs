use hes_inputs::OptionalNumericInput;

#[test]
fn toggling_off_then_on_restores_the_entry() {
    let mut input = OptionalNumericInput::new(Some(1i64));
    assert_eq!(input.on_input("42"), Some(Some(42)));
    assert_eq!(input.on_toggle(false), None);
    assert_eq!(input.value(), None);
    assert!(!input.is_present());
    assert_eq!(input.on_toggle(true), Some(42));
    assert_eq!(input.value(), Some(42));
    assert!(input.is_present());
}

#[test]
fn toggling_restores_the_bound_number_when_nothing_was_entered() {
    let mut input = OptionalNumericInput::new(Some(9u32));
    assert_eq!(input.on_toggle(false), None);
    assert_eq!(input.on_toggle(true), Some(9));
}

#[test]
fn an_absent_number_comes_on_as_the_default() {
    let mut input = OptionalNumericInput::<i64>::new(None);
    assert_eq!(input.value(), None);
    assert!(!input.is_present());
    assert_eq!(input.on_toggle(true), Some(0));
}

#[test]
fn an_absent_float_comes_on_as_the_default() {
    let mut input = OptionalNumericInput::<f32>::new(None);
    assert_eq!(input.on_toggle(true), Some(0.0));
    assert_eq!(input.on_parsed("2.5".parse::<f32>().ok()), Some(Some(2.5)));
    assert_eq!(input.on_toggle(false), None);
    assert_eq!(input.on_toggle(true), Some(2.5));
}

#[test]
fn a_failed_entry_writes_nothing_and_keeps_the_number() {
    let mut input = OptionalNumericInput::new(Some(5i64));
    assert_eq!(input.on_input("5x"), None);
    assert!(input.shows_error());
    assert_eq!(input.value(), Some(5));
    assert_eq!(input.on_toggle(false), None);
    assert!(!input.shows_error());
    assert_eq!(input.on_toggle(true), Some(5));
    assert!(!input.shows_error());
}

#[test]
fn checking_a_checked_box_keeps_the_message() {
    let mut input = OptionalNumericInput::new(Some(5i64));
    assert_eq!(input.on_input("?"), None);
    assert_eq!(input.on_toggle(true), Some(5));
    assert!(input.shows_error());
}

#[test]
fn the_latest_entry_is_the_one_restored() {
    let mut input = OptionalNumericInput::new(Some(1u64));
    assert_eq!(input.on_input("2"), Some(Some(2)));
    assert_eq!(input.on_input("3"), Some(Some(3)));
    assert_eq!(input.on_input("three"), None);
    assert_eq!(input.on_toggle(false), None);
    assert_eq!(input.on_toggle(true), Some(3));
}
