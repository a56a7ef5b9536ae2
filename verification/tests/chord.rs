use tonal::{Chord, Length, Name, Pitch};

#[test]
fn new_stores_what_it_is_given() {
    let pitches = vec![Pitch(3), Pitch(-2), Pitch(3)];
    let chord = Chord::new(pitches.clone(), Length::Half, 0.75);
    assert_eq!(chord.pitches(), pitches.as_slice());
    assert_eq!(chord.length(), Length::Half);
    assert_eq!(*chord.volume(), 0.75);
}

#[test]
fn volume_is_not_range_checked() {
    let loud = Chord::new(vec![Pitch(0)], Length::Whole, 1.0e9);
    assert_eq!(*loud.volume(), 1.0e9);
    let negative = Chord::new(vec![Pitch(0)], Length::Whole, -3.5);
    assert_eq!(*negative.volume(), -3.5);
}

#[test]
fn a_chord_may_be_empty() {
    let chord = Chord::new(Vec::new(), Length::Sixteenth, 0.5);
    assert!(chord.pitches().is_empty());
    assert_eq!(chord.length(), Length::Sixteenth);
}

#[test]
fn c_major_is_c_e_g() {
    let c4 = Pitch::new(Name::C, 4);
    let c_maj = Chord::new_major(c4, Length::Whole, 0.5);
    let correct = [c4, Pitch::new(Name::E, 4), Pitch::new(Name::G, 4)];
    assert_eq!(c_maj.pitches(), &correct);
    assert_eq!(c_maj.length(), Length::Whole);
    assert_eq!(*c_maj.volume(), 0.5);
}

#[test]
fn major_chord_is_root_third_fifth() {
    for root in [-57, -21, -9, 0, 1, 40] {
        let chord = Chord::new_major(Pitch(root), Length::Quarter, 1u8);
        assert_eq!(chord.pitches(), &[Pitch(root), Pitch(root + 4), Pitch(root + 7)]);
    }
}

#[test]
fn major_chord_on_the_highest_root() {
    let root = Pitch(i32::MAX - 7);
    let chord = Chord::new_major(root, Length::Quarter, 0.5);
    assert_eq!(chord.pitches(), &[root, Pitch(i32::MAX - 3), Pitch(i32::MAX)]);
    let low = Chord::new_major(Pitch(i32::MIN), Length::Quarter, 0.5);
    assert_eq!(low.pitches(), &[Pitch(i32::MIN), Pitch(i32::MIN + 4), Pitch(i32::MIN + 7)]);
}

#[test]
fn pitches_mut_edits_in_place() {
    let mut chord = Chord::new(vec![Pitch(0), Pitch(4), Pitch(7)], Length::Eigth, 0.25);
    chord.pitches_mut().push(Pitch(10));
    assert_eq!(chord.pitches(), &[Pitch(0), Pitch(4), Pitch(7), Pitch(10)]);
    chord.pitches_mut().remove(1);
    assert_eq!(chord.pitches(), &[Pitch(0), Pitch(7), Pitch(10)]);
    chord.pitches_mut().reverse();
    assert_eq!(chord.pitches(), &[Pitch(10), Pitch(7), Pitch(0)]);
    chord.pitches_mut().insert(0, Pitch(-12));
    assert_eq!(chord.pitches(), &[Pitch(-12), Pitch(10), Pitch(7), Pitch(0)]);
    chord.pitches_mut().clear();
    assert!(chord.pitches().is_empty());
    assert_eq!(chord.length(), Length::Eigth);
    assert_eq!(*chord.volume(), 0.25);
}

#[test]
fn clone_is_equal_and_independent() {
    let mut chord = Chord::new(vec![Pitch(1), Pitch(2)], Length::Half, 0.5);
    let copy = chord.clone();
    assert_eq!(copy, chord);
    assert_eq!(copy.pitches(), chord.pitches());
    assert_eq!(copy.length(), chord.length());
    assert_eq!(copy.volume(), chord.volume());
    chord.pitches_mut().push(Pitch(3));
    assert_ne!(copy, chord);
    assert_eq!(copy.pitches(), &[Pitch(1), Pitch(2)]);
}

#[test]
fn chords_differ_by_any_field() {
    let chord = Chord::new(vec![Pitch(1)], Length::Half, 0.5);
    assert_ne!(chord, Chord::new(vec![Pitch(2)], Length::Half, 0.5));
    assert_ne!(chord, Chord::new(vec![Pitch(1)], Length::Whole, 0.5));
    assert_ne!(chord, Chord::new(vec![Pitch(1)], Length::Half, 0.6));
    assert_eq!(chord, Chord::new(vec![Pitch(1)], Length::Half, 0.5));
}

#[test]
fn sampling_leaves_the_chord_alone() {
    let chord = Chord::new_major(Pitch(0), Length::Quarter, 0.5);
    let before = chord.clone();
    let mut stream = chord.samples(2);
    let frame = [[1i16, 2, 3, 4]; 3];
    assert_eq!(stream.pitches(), chord.pitches());
    assert_eq!(stream.next(&frame), Some(30));
    assert_eq!(stream.next(&frame), Some(30));
    assert_eq!(stream.next(&frame), None);
    assert_eq!(chord, before);
}
