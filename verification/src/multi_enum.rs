//! A multi-select input: one element per variant, each toggling whether the
//! variant is in the bound selection, each with a tooltip shown while hovered.

use crate::variants::{Describe, Variants};
use vstd::prelude::*;

verus! {

/// The test that keeps every variant but `variant`.
pub open spec fn other_than<E>(variant: E) -> spec_fn(E) -> bool {
    |v: E| v != variant
}

/// The selection after a click on `variant`: a selected variant leaves the
/// selection wherever it occurs, an unselected one joins it at the end.
pub open spec fn toggled<E>(selection: Seq<E>, variant: E) -> Seq<E> {
    if selection.contains(variant) {
        selection.filter(other_than(variant))
    } else {
        selection.push(variant)
    }
}

/// Whether `variant` is in the selection.
fn contains(selection: &Vec<usize>, variant: usize) -> (r: bool)
    ensures
        r == selection@.contains(variant),
{
    let mut i: usize = 0;
    while i < selection.len()
        invariant
            i <= selection.len(),
            forall|k: int| 0 <= k < i ==> selection@[k] != variant,
        decreases selection.len() - i,
    {
        if selection[i] == variant {
            return true;
        }
        i += 1;
    }
    false
}

/// The selection without `variant`, the others in the order they had.
fn without(selection: &Vec<usize>, variant: usize) -> (r: Vec<usize>)
    ensures
        r@ == selection@.filter(other_than(variant)),
{
    let mut kept: Vec<usize> = Vec::new();
    let mut i: usize = 0;
    while i < selection.len()
        invariant
            i <= selection.len(),
            kept@ == selection@.take(i as int).filter(other_than(variant)),
        decreases selection.len() - i,
    {
        proof {
            let next = selection@.take(i + 1);
            assert(next.drop_last() =~= selection@.take(i as int));
            reveal(Seq::filter);
        }
        if selection[i] != variant {
            kept.push(selection[i]);
        }
        i += 1;
    }
    assert(selection@.take(selection.len() as int) =~= selection@);
    kept
}

/// The flags with the one at `at` replaced by `value`.
fn with_flag(flags: &Vec<bool>, at: usize, value: bool) -> (r: Vec<bool>)
    requires
        at < flags.len(),
    ensures
        r@ == flags@.update(at as int, value),
{
    let mut copy: Vec<bool> = Vec::new();
    let mut i: usize = 0;
    while i < flags.len()
        invariant
            i <= flags.len(),
            at < flags.len(),
            copy@ == flags@.update(at as int, value).take(i as int),
        decreases flags.len() - i,
    {
        copy.push(if i == at { value } else { flags[i] });
        i += 1;
        assert(copy@ =~= flags@.update(at as int, value).take(i as int));
    }
    copy
}

/// Whether `text` is a description that `value` gave of itself.
pub open spec fn described<E: Describe>(value: E, text: Seq<char>) -> bool {
    exists|given: &'static str| #[trigger] call_ensures(E::describe, (&value,), given) && given@ == text
}

/// A multi-select input over the variants of one enumeration.
pub struct MultiEnumInput {
    variants: Variants,
    descriptions: Vec<String>,
    hovered: Vec<bool>,
}

impl MultiEnumInput {
    /// The variants on offer.
    pub closed spec fn variants(&self) -> Variants {
        self.variants
    }

    /// The description of each variant, in enumeration order.
    pub closed spec fn descriptions(&self) -> Seq<Seq<char>> {
        self.descriptions.deep_view()
    }

    /// For each variant, whether the pointer is over its element.
    pub closed spec fn hovered(&self) -> Seq<bool> {
        self.hovered@
    }

    /// Every variant has a description and a hover state.
    #[verifier::type_invariant]
    pub closed spec fn wf(&self) -> bool {
        &&& self.variants.wf()
        &&& self.descriptions().len() == self.variants.count()
        &&& self.hovered().len() == self.variants.count()
    }

    /// Mounts the input over `variants`, each with its description. No
    /// element is hovered. Refused unless there is one description per variant.
    pub fn new(variants: Variants, descriptions: Vec<String>) -> (r: Option<MultiEnumInput>)
        ensures
            r is Some <==> descriptions.len() == variants.count(),
            r matches Some(input) ==> {
                &&& input.wf()
                &&& input.variants() == variants
                &&& input.descriptions() == descriptions.deep_view()
                &&& input.hovered() == Seq::new(variants.count(), |i: int| false)
            },
    {
        proof {
            use_type_invariant(&variants);
        }
        if descriptions.len() != variants.len() {
            return None;
        }
        let mut hovered: Vec<bool> = Vec::new();
        let mut i: usize = 0;
        while i < descriptions.len()
            invariant
                i <= descriptions.len(),
                hovered@ == Seq::new(i as nat, |k: int| false),
            decreases descriptions.len() - i,
        {
            hovered.push(false);
            i += 1;
        }
        Some(MultiEnumInput { variants, descriptions, hovered })
    }

    /// Mounts the input over `variants`, asking each of `values` for its
    /// description: the value at a position describes the variant at that
    /// position. Refused unless there is one value per variant.
    pub fn described_by<E: Describe>(variants: Variants, values: &Vec<E>) -> (r: Option<
        MultiEnumInput,
    >)
        ensures
            r is Some <==> values.len() == variants.count(),
            r matches Some(input) ==> {
                &&& input.wf()
                &&& input.variants() == variants
                &&& input.descriptions().len() == values.len()
                &&& forall|i: int|
                    0 <= i < values.len() ==> described(values[i], #[trigger] input.descriptions()[i])
                &&& input.hovered() == Seq::new(variants.count(), |i: int| false)
            },
    {
        let mut descriptions: Vec<String> = Vec::new();
        let mut i: usize = 0;
        while i < values.len()
            invariant
                i <= values.len(),
                descriptions.len() == i,
                forall|k: int|
                    0 <= k < i ==> described(values[k], #[trigger] descriptions.deep_view()[k]),
            decreases values.len() - i,
        {
            let ghost before = descriptions.deep_view();
            let text = values[i].describe();
            descriptions.push(String::from_str(text));
            assert forall|k: int| 0 <= k < i implies described(
                values[k],
                #[trigger] descriptions.deep_view()[k],
            ) by {
                assert(descriptions.deep_view()[k] == before[k]);
            }
            i += 1;
        }
        MultiEnumInput::new(variants, descriptions)
    }

    /// The number of variants on offer.
    pub fn len(&self) -> (n: usize)
        ensures
            n == self.variants().count(),
    {
        self.variants.len()
    }

    /// The text displayed for `variant`.
    pub fn text(&self, variant: usize) -> (text: &str)
        requires
            variant < self.variants().count(),
        ensures
            text@ == self.variants().texts()[variant as int],
    {
        self.variants.text(variant)
    }

    /// Whether the element of `variant` is marked as selected, given the
    /// selection the binding holds.
    pub fn is_selected(&self, selection: &Vec<usize>, variant: usize) -> (r: bool)
        ensures
            r == selection@.contains(variant),
    {
        contains(selection, variant)
    }

    /// Handles a click on the element of `variant`, given the selection the
    /// binding holds: the result is the selection that is written back.
    pub fn on_click(&self, selection: Vec<usize>, variant: usize) -> (written: Vec<usize>)
        ensures
            written@ == toggled(selection@, variant),
    {
        if contains(&selection, variant) {
            without(&selection, variant)
        } else {
            let mut grown = selection;
            grown.push(variant);
            grown
        }
    }

    /// Records that the pointer entered (`true`) or left (`false`) the element
    /// of `variant`.
    pub fn on_hover(&mut self, variant: usize, hovered: bool)
        requires
            variant < old(self).variants().count(),
        ensures
            final(self).wf(),
            final(self).variants() == old(self).variants(),
            final(self).descriptions() == old(self).descriptions(),
            final(self).hovered() == old(self).hovered().update(variant as int, hovered),
    {
        proof {
            use_type_invariant(&*self);
        }
        self.hovered = with_flag(&self.hovered, variant, hovered);
    }

    /// The tooltip of `variant`: its description while its element is hovered.
    pub fn tooltip(&self, variant: usize) -> (shown: Option<&str>)
        requires
            variant < self.variants().count(),
        ensures
            shown is Some <==> self.hovered()[variant as int],
            shown matches Some(text) ==> text@ == self.descriptions()[variant as int],
    {
        proof {
            use_type_invariant(self);
        }
        if self.hovered[variant] {
            Some(self.descriptions[variant].as_str())
        } else {
            None
        }
    }
}

/// Filtering a sequence in which nothing occurs twice leaves nothing twice.
proof fn lemma_filter_keeps_distinct<E>(s: Seq<E>, pred: spec_fn(E) -> bool)
    requires
        s.no_duplicates(),
    ensures
        s.filter(pred).no_duplicates(),
    decreases s.len(),
{
    reveal(Seq::filter);
    if s.len() > 0 {
        let rest = s.drop_last();
        lemma_filter_keeps_distinct(rest, pred);
        let kept = rest.filter(pred);
        if pred(s.last()) {
            assert forall|i: int| 0 <= i < kept.len() implies kept[i] != s.last() by {
                assert(kept.contains(kept[i]));
                rest.lemma_filter_contains_rev(pred, kept[i]);
                let k = choose|k: int| 0 <= k < rest.len() && rest[k] == kept[i];
                assert(s[k] == rest[k]);
            }
        }
    }
}

/// A click on a variant that is not selected appends it to the end of the
/// selection and changes nothing else.
pub proof fn lemma_click_unselected_appends<E>(selection: Seq<E>, variant: E)
    requires
        !selection.contains(variant),
    ensures
        toggled(selection, variant) == selection.push(variant),
{
}

/// A click on a selected variant removes it wherever it occurs; every other
/// variant stays in or out of the selection as it was, and those that stay
/// keep their order.
pub proof fn lemma_click_selected_removes<E>(selection: Seq<E>, variant: E)
    requires
        selection.contains(variant),
    ensures
        toggled(selection, variant) == selection.filter(other_than(variant)),
        !toggled(selection, variant).contains(variant),
        forall|v: E|
            v != variant ==> (#[trigger] toggled(selection, variant).contains(v)
                <==> selection.contains(v)),
{
    let pred = other_than(variant);
    let kept = selection.filter(pred);
    if kept.contains(variant) {
        let i = choose|i: int| 0 <= i < kept.len() && kept[i] == variant;
        selection.lemma_filter_pred(pred, i);
    }
    assert forall|v: E| v != variant implies (#[trigger] kept.contains(v)
        <==> selection.contains(v)) by {
        if kept.contains(v) {
            selection.lemma_filter_contains_rev(pred, v);
        }
        if selection.contains(v) {
            let i = choose|i: int| 0 <= i < selection.len() && selection[i] == v;
            selection.lemma_filter_contains(pred, i);
        }
    }
}

/// A selection that holds each variant at most once still does so after a
/// click, whichever variant is clicked.
pub proof fn lemma_click_keeps_distinct<E>(selection: Seq<E>, variant: E)
    requires
        selection.no_duplicates(),
    ensures
        toggled(selection, variant).no_duplicates(),
{
    if selection.contains(variant) {
        lemma_filter_keeps_distinct(selection, other_than(variant));
    }
}

} // verus!
