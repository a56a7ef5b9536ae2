//! Chords: pitches that sound together, with one length and one volume.

use crate::length::Length;
use crate::pitch::Pitch;
use crate::synth::{Samples, SamplesView};
use vstd::prelude::*;

verus! {

/// A pitch or a group of pitches with a shared length and volume.
///
/// A single note is a chord of one pitch. The pitches are kept in the order
/// given; duplicates are allowed, and so is a chord without pitches. The
/// volume is a scalar of the caller's choosing, `V`: the chord keeps it and
/// hands it back untouched, with no range imposed on it.
#[derive(Debug, PartialEq)]
pub struct Chord<V> {
    pitches: Vec<Pitch>,
    length: Length,
    volume: V,
}

/// What a chord holds.
pub struct ChordView<V> {
    /// The pitches, in order.
    pub pitches: Seq<Pitch>,
    /// The length shared by the pitches.
    pub length: Length,
    /// The volume shared by the pitches.
    pub volume: V,
}

impl<V> View for Chord<V> {
    type V = ChordView<V>;

    closed spec fn view(&self) -> ChordView<V> {
        ChordView { pitches: self.pitches@, length: self.length, volume: self.volume }
    }
}

impl<V: Clone> Clone for Chord<V> {
    /// The copy has the same pitches and length, and a clone of the volume.
    fn clone(&self) -> (copy: Self)
        ensures
            copy@.pitches == self@.pitches,
            copy@.length == self@.length,
            cloned(self@.volume, copy@.volume),
    {
        let pitches: Vec<Pitch> = self.pitches.clone();
        assert(pitches@ =~= self.pitches@);
        Chord { pitches, length: self.length, volume: self.volume.clone() }
    }
}

impl<V> Chord<V> {
    /// The pitches of the major triad on `root`: the root, the major third
    /// four semitones above it, and the perfect fifth seven semitones above it.
    pub open spec fn major_triad(root: Pitch) -> Seq<Pitch>
        recommends
            root.0 <= i32::MAX - 7,
    {
        seq![root, Pitch((root.0 + 4) as i32), Pitch((root.0 + 7) as i32)]
    }

    /// Creates a chord of the given pitches, stored as they are.
    pub fn new(pitches: Vec<Pitch>, length: Length, volume: V) -> (chord: Self)
        ensures
            chord@ == (ChordView { pitches: pitches@, length, volume }),
    {
        Chord { pitches, length, volume }
    }

    /// Creates a new major chord based off of the root: the root, the pitch a
    /// major third above it, and the pitch a perfect fifth above it.
    ///
    /// The fifth must still be a pitch that the semitone count can hold.
    pub fn new_major(root: Pitch, length: Length, volume: V) -> (chord: Self)
        requires
            root.0 <= i32::MAX - 7,
        ensures
            chord@ == (ChordView { pitches: Self::major_triad(root), length, volume }),
    {
        let mut pitches: Vec<Pitch> = Vec::new();
        pitches.push(root);
        pitches.push(Pitch(root.0 + 4));
        pitches.push(Pitch(root.0 + 7));
        assert(pitches@ =~= Self::major_triad(root));
        Chord::new(pitches, length, volume)
    }

    /// Gives read access to the pitches of this chord.
    pub fn pitches(&self) -> (pitches: &[Pitch])
        ensures
            pitches@ == self@.pitches,
    {
        self.pitches.as_slice()
    }

    /// Gives write access to the pitches of this chord. Length and volume
    /// stay as they are, whatever is done to the pitches.
    pub fn pitches_mut(&mut self) -> (pitches: &mut Vec<Pitch>)
        ensures
            pitches@ == old(self)@.pitches,
            final(self)@ == (ChordView { pitches: final(pitches)@, ..old(self)@ }),
    {
        &mut self.pitches
    }

    /// Returns the length of this chord.
    pub fn length(&self) -> (length: Length)
        ensures
            length == self@.length,
    {
        self.length
    }

    /// Returns the volume of this chord.
    pub fn volume(&self) -> (volume: &V)
        ensures
            *volume == self@.volume,
    {
        &self.volume
    }

    /// Opens a stream of `max` samples over the pitches of this chord.
    ///
    /// The stream starts at sample 0 whenever it is opened, and however many
    /// streams were opened on the chord before; the chord is left as it is.
    /// The caller derives `max` from the length of the chord, the tempo and the
    /// sample rate.
    pub fn samples(&self, max: u32) -> (stream: Samples<'_>)
        ensures
            stream@ == SamplesView::fresh(self@.pitches, max as nat),
    {
        Samples::new(0, max, self.pitches.as_slice())
    }
}

} // verus!
