//! A small music-theory and tone-synthesis core.
//!
//! The crate models pitches, note lengths and chords, and drives the stream of
//! signed 16-bit samples that a chord is rendered to. Everything here works on
//! integers: the oscillator itself, which needs real-number trigonometry, is
//! left to the caller, who quantises each harmonic of each pitch to 16 bits and
//! hands the values to [`Samples::next`] to be mixed.

pub mod chord;
pub mod length;
pub mod mix;
pub mod pitch;
pub mod synth;

pub use chord::{Chord, ChordView};
pub use length::Length;
pub use mix::{mix_frame, mix_partials, Partials, HARMONICS};
pub use pitch::{Name, Pitch};
pub use synth::{Samples, SamplesView};
