//! Note lengths.

use std::cmp::Ordering;
use vstd::prelude::*;

verus! {

/// The length of a musical note, as a fraction of a whole note.
///
/// Lengths are ordered from the longest to the shortest, which is the order
/// of their exponents.
#[derive(Clone, Copy, Debug, PartialEq, Eq, Hash, Ord, Structural)]
pub enum Length {
    /// A whole note.
    Whole,
    /// A half of a whole note.
    Half,
    /// A quarter of a whole note.
    Quarter,
    /// An eighth of a whole note.
    Eigth,
    /// A sixteenth of a whole note.
    Sixteenth,
}

impl Length {
    /// The exponent `k` for which a note of this length lasts `1 / 2^k`
    /// beats, a beat being a quarter note: -2 for a whole note, rising by one
    /// each time the length is halved.
    pub open spec fn spec_exponent(self) -> int {
        match self {
            Length::Whole => -2,
            Length::Half => -1,
            Length::Quarter => 0,
            Length::Eigth => 1,
            Length::Sixteenth => 2,
        }
    }

    /// Returns the exponent `k` for which a note of this length lasts
    /// `1 / 2^k` beats.
    pub fn exponent(self) -> (k: i32)
        ensures
            k == self.spec_exponent(),
            -2 <= k <= 2,
    {
        match self {
            Length::Whole => -2,
            Length::Half => -1,
            Length::Quarter => 0,
            Length::Eigth => 1,
            Length::Sixteenth => 2,
        }
    }
}

impl PartialOrd for Length {
    fn partial_cmp(&self, other: &Length) -> (order: Option<Ordering>) {
        let mine: i32 = self.exponent();
        let theirs: i32 = other.exponent();
        if mine < theirs {
            Some(Ordering::Less)
        } else if mine > theirs {
            Some(Ordering::Greater)
        } else {
            Some(Ordering::Equal)
        }
    }
}

impl vstd::std_specs::cmp::PartialOrdSpecImpl for Length {
    open spec fn obeys_partial_cmp_spec() -> bool {
        true
    }

    open spec fn partial_cmp_spec(&self, other: &Length) -> Option<Ordering> {
        if self.spec_exponent() < other.spec_exponent() {
            Some(Ordering::Less)
        } else if self.spec_exponent() > other.spec_exponent() {
            Some(Ordering::Greater)
        } else {
            Some(Ordering::Equal)
        }
    }
}

} // verus!
