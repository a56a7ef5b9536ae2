//! Pitches in twelve-tone equal temperament, counted in semitones from A4.

use std::cmp::Ordering;
use vstd::prelude::*;

verus! {

/// The twelve pitch classes of the chromatic scale.
///
/// The `S` means "sharp".
#[derive(Clone, Copy, Debug, PartialEq, Eq, Structural)]
pub enum Name {
    /// C.
    C,
    /// C sharp / D flat.
    CS,
    /// D.
    D,
    /// D sharp / E flat.
    DS,
    /// E.
    E,
    /// F.
    F,
    /// F sharp / G flat.
    FS,
    /// G.
    G,
    /// G sharp / A flat.
    GS,
    /// A.
    A,
    /// A sharp / B flat.
    AS,
    /// B.
    B,
}

impl Name {
    /// The position of this pitch class in the chromatic scale that starts at
    /// C: C is 0, C sharp is 1, and so on up to B, which is 11.
    pub open spec fn spec_semitone_class(self) -> int {
        match self {
            Name::C => 0,
            Name::CS => 1,
            Name::D => 2,
            Name::DS => 3,
            Name::E => 4,
            Name::F => 5,
            Name::FS => 6,
            Name::G => 7,
            Name::GS => 8,
            Name::A => 9,
            Name::AS => 10,
            Name::B => 11,
        }
    }

    /// Returns the position of this pitch class in the chromatic scale that
    /// starts at C.
    pub fn semitone_class(self) -> (class: i32)
        ensures
            class == self.spec_semitone_class(),
            0 <= class <= 11,
    {
        match self {
            Name::C => 0,
            Name::CS => 1,
            Name::D => 2,
            Name::DS => 3,
            Name::E => 4,
            Name::F => 5,
            Name::FS => 6,
            Name::G => 7,
            Name::GS => 8,
            Name::A => 9,
            Name::AS => 10,
            Name::B => 11,
        }
    }
}

/// A musical pitch, stored as the number of semitones above A4 (440 Hz).
///
/// Negative values lie below A4. The field is public on purpose: arithmetic
/// on it is the way to build pitches programmatically. Pitches are equal, and
/// ordered, as their semitone counts are.
#[derive(Clone, Copy, Debug, PartialEq, Eq, Hash, Ord, Structural)]
pub struct Pitch(pub i32);

impl Pitch {
    /// The semitone count of the pitch with the given name in the given
    /// octave. Octaves start at C, so the count is taken from C4 and then
    /// moved down by the nine semitones between C4 and A4.
    pub open spec fn spec_new(name: Name, octave: u8) -> int {
        (octave - 4) * 12 + name.spec_semitone_class() - 9
    }

    /// Creates the pitch with the given note name in the given octave.
    pub fn new(name: Name, octave: u8) -> (pitch: Pitch)
        ensures
            pitch.0 == Self::spec_new(name, octave),
    {
        let octave: i32 = octave as i32;
        Pitch((octave - 4) * 12 + name.semitone_class() - 9)
    }
}

impl Default for Pitch {
    /// A4, the reference pitch.
    fn default() -> (pitch: Pitch)
        ensures
            pitch.0 == 0,
    {
        Pitch(0)
    }
}

impl PartialOrd for Pitch {
    fn partial_cmp(&self, other: &Pitch) -> (order: Option<Ordering>) {
        if self.0 < other.0 {
            Some(Ordering::Less)
        } else if self.0 > other.0 {
            Some(Ordering::Greater)
        } else {
            Some(Ordering::Equal)
        }
    }
}

impl vstd::std_specs::cmp::PartialOrdSpecImpl for Pitch {
    open spec fn obeys_partial_cmp_spec() -> bool {
        true
    }

    open spec fn partial_cmp_spec(&self, other: &Pitch) -> Option<Ordering> {
        if self.0 < other.0 {
            Some(Ordering::Less)
        } else if self.0 > other.0 {
            Some(Ordering::Greater)
        } else {
            Some(Ordering::Equal)
        }
    }
}

} // verus!
