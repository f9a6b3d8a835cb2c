//! The variants of an enumeration as the inputs show them: each variant is
//! known by its position in the enumeration, carries a label that names it and
//! a text that is displayed for it.

use vstd::prelude::*;

verus! {

/// A value that describes itself in a sentence, for a tooltip.
pub trait Describe {
    /// The sentence that describes this value.
    fn describe(&self) -> &'static str;
}

/// The variants of one enumeration, in enumeration order. No two variants
/// share a label, so a label names at most one variant.
pub struct Variants {
    labels: Vec<String>,
    texts: Vec<String>,
}

impl Variants {
    /// The labels, in enumeration order.
    pub closed spec fn labels(&self) -> Seq<Seq<char>> {
        self.labels.deep_view()
    }

    /// The displayed texts, in enumeration order.
    pub closed spec fn texts(&self) -> Seq<Seq<char>> {
        self.texts.deep_view()
    }

    /// Every variant has a label and a text, and no label occurs twice.
    #[verifier::type_invariant]
    pub closed spec fn wf(&self) -> bool {
        &&& self.labels().len() == self.texts().len()
        &&& self.labels().no_duplicates()
    }

    /// The number of variants.
    pub open spec fn count(&self) -> nat {
        self.labels().len()
    }

    /// The variant that `label` names, if any.
    pub open spec fn position_of(&self, label: Seq<char>) -> Option<int> {
        if self.labels().contains(label) {
            Some(self.labels().index_of(label))
        } else {
            None
        }
    }

    /// Builds the set from the label and the text of each variant. The set is
    /// refused when a variant lacks a label or a text, or when two variants
    /// share a label.
    pub fn new(labels: Vec<String>, texts: Vec<String>) -> (r: Option<Variants>)
        ensures
            r is Some <==> labels.len() == texts.len() && labels.deep_view().no_duplicates(),
            r matches Some(v) ==> v.wf() && v.labels() == labels.deep_view() && v.texts()
                == texts.deep_view(),
    {
        if labels.len() != texts.len() {
            return None;
        }
        let ghost all = labels.deep_view();
        let mut i: usize = 0;
        while i < labels.len()
            invariant
                i <= labels.len(),
                all == labels.deep_view(),
                forall|a: int, b: int| 0 <= a < b < i ==> all[a] != all[b],
            decreases labels.len() - i,
        {
            let mut j: usize = 0;
            while j < i
                invariant
                    j <= i < labels.len(),
                    all == labels.deep_view(),
                    forall|a: int| 0 <= a < j ==> all[a] != all[i as int],
                decreases i - j,
            {
                if labels[j] == labels[i] {
                    assert(all[j as int] == all[i as int]);
                    return None;
                }
                j += 1;
            }
            i += 1;
        }
        Some(Variants { labels, texts })
    }

    /// The number of variants.
    pub fn len(&self) -> (n: usize)
        ensures
            n == self.count(),
    {
        self.labels.len()
    }

    /// The label of the variant at `variant`.
    pub fn label(&self, variant: usize) -> (label: &str)
        requires
            variant < self.count(),
        ensures
            label@ == self.labels()[variant as int],
    {
        self.labels[variant].as_str()
    }

    /// The text displayed for the variant at `variant`.
    pub fn text(&self, variant: usize) -> (text: &str)
        requires
            variant < self.count(),
        ensures
            text@ == self.texts()[variant as int],
    {
        proof {
            use_type_invariant(self);
        }
        self.texts[variant].as_str()
    }

    /// Finds the variant that `label` names.
    pub fn position(&self, label: &str) -> (r: Option<usize>)
        ensures
            r matches Some(i) ==> self.position_of(label@) == Some(i as int),
            r is None ==> self.position_of(label@) is None,
    {
        proof {
            use_type_invariant(self);
        }
        let needle = String::from_str(label);
        let mut i: usize = 0;
        while i < self.labels.len()
            invariant
                i <= self.labels.len(),
                self.wf(),
                needle@ == label@,
                forall|a: int| 0 <= a < i ==> self.labels()[a] != label@,
            decreases self.labels.len() - i,
        {
            if self.labels[i] == needle {
                assert(self.labels()[i as int] == label@);
                assert(self.labels().contains(label@));
                return Some(i);
            }
            i += 1;
        }
        None
    }
}

/// What a lookup finds carries the label looked up, and a lookup finds
/// nothing only where no variant carries the label.
pub proof fn lemma_position_names_label(variants: Variants, label: Seq<char>)
    ensures
        variants.position_of(label) matches Some(variant) ==> 0 <= variant < variants.count()
            && variants.labels()[variant] == label,
        variants.position_of(label) is None ==> forall|variant: int|
            0 <= variant < variants.count() ==> variants.labels()[variant] != label,
{
}

/// A label of the set names the variant that carries it: looking up the label
/// of a variant finds that variant again.
pub proof fn lemma_label_round_trip(variants: Variants, variant: int)
    requires
        variants.wf(),
        0 <= variant < variants.count(),
    ensures
        variants.position_of(variants.labels()[variant]) == Some(variant),
{
}

} // verus!
