//! A single-select input: one option per variant of an enumeration, the
//! option of the bound variant selected.

use crate::variants::Variants;
use vstd::prelude::*;

verus! {

/// A single-select input over a bound variant. Each option carries the label
/// of its variant as its value and shows the text of its variant.
pub struct EnumInput {
    variants: Variants,
    selected: usize,
}

impl EnumInput {
    /// The variants on offer.
    pub closed spec fn variants(&self) -> Variants {
        self.variants
    }

    /// The variant whose option is selected.
    pub closed spec fn chosen(&self) -> int {
        self.selected as int
    }

    /// The selected variant is one of those on offer.
    #[verifier::type_invariant]
    pub closed spec fn wf(&self) -> bool {
        &&& self.variants.wf()
        &&& self.selected < self.variants.count()
    }

    /// Mounts the input over the variant the binding holds: its option is the
    /// selected one. Refused unless `bound` is one of `variants`.
    pub fn new(variants: Variants, bound: usize) -> (r: Option<EnumInput>)
        ensures
            r is Some <==> bound < variants.count(),
            r matches Some(input) ==> input.wf() && input.variants() == variants && input.chosen()
                == bound,
    {
        proof {
            use_type_invariant(&variants);
        }
        if bound < variants.len() {
            Some(EnumInput { variants, selected: bound })
        } else {
            None
        }
    }

    /// The number of options.
    pub fn len(&self) -> (n: usize)
        ensures
            n == self.variants().count(),
    {
        self.variants.len()
    }

    /// The value of the option of `variant`: the label of the variant.
    pub fn label(&self, variant: usize) -> (label: &str)
        requires
            variant < self.variants().count(),
        ensures
            label@ == self.variants().labels()[variant as int],
    {
        self.variants.label(variant)
    }

    /// The text that the option of `variant` shows.
    pub fn text(&self, variant: usize) -> (text: &str)
        requires
            variant < self.variants().count(),
        ensures
            text@ == self.variants().texts()[variant as int],
    {
        self.variants.text(variant)
    }

    /// The variant whose option is selected.
    pub fn selected(&self) -> (variant: usize)
        ensures
            variant == self.chosen(),
            variant < self.variants().count(),
    {
        proof {
            use_type_invariant(self);
        }
        self.selected
    }

    /// Whether the option of `variant` is the selected one.
    pub fn is_selected(&self, variant: usize) -> (r: bool)
        ensures
            r == (variant == self.chosen()),
    {
        variant == self.selected
    }

    /// The variant that the option value `label` stands for, if it is the
    /// value of one of the options.
    pub fn position(&self, label: &str) -> (r: Option<usize>)
        ensures
            r matches Some(i) ==> self.variants().position_of(label@) == Some(i as int),
            r is None ==> self.variants().position_of(label@) is None,
    {
        self.variants.position(label)
    }

    /// Handles a change event that selects the option whose value is `label`:
    /// the variant that the label names becomes the selected one and is
    /// written to the binding. The result is the variant written.
    ///
    /// The values of the options are the labels of the variants, so a change
    /// event can carry no other text: a label that names no variant is left
    /// out.
    pub fn on_change(&mut self, label: &str) -> (written: usize)
        requires
            old(self).variants().position_of(label@) is Some,
        ensures
            final(self).wf(),
            final(self).variants() == old(self).variants(),
            final(self).chosen() == written,
            old(self).variants().position_of(label@) == Some(written as int),
    {
        proof {
            use_type_invariant(&*self);
        }
        match self.variants.position(label) {
            Some(variant) => {
                self.selected = variant;
                variant
            },
            None => self.selected,
        }
    }
}

} // verus!
