//! Mixing of quantised harmonics in 16-bit wrapping arithmetic.
//!
//! Every pitch of a chord sounds as a stack of [`HARMONICS`] sine partials. The
//! caller evaluates the partials and quantises each to a signed 16-bit level;
//! this module adds the levels up. Each addition keeps only the low 16 bits of
//! its result, first across the partials of one pitch and then across the
//! pitches, so a loud chord wraps around instead of clipping. Because wrapping
//! addition is addition modulo 2^16, the outcome is simply the exact sum of all
//! levels reduced into the signed 16-bit range, which is how the contracts
//! below state it.

use vstd::prelude::*;

verus! {

/// The number of harmonics that make up the tone of one pitch.
pub const HARMONICS: usize = 4;

/// The quantised levels of the harmonics of one pitch at one instant, the
/// fundamental first.
pub type Partials = [i16; HARMONICS];

/// The value in `-32768..=32767` that differs from `x` by a multiple of 2^16:
/// what is left of `x` when only its low 16 bits are kept and read as a signed
/// number.
pub open spec fn wrap16(x: int) -> int {
    (x + 0x8000) % 0x1_0000 - 0x8000
}

/// The exact sum of the four levels of one pitch.
pub open spec fn partials_total(partials: Partials) -> int {
    partials[0] + partials[1] + partials[2] + partials[3]
}

/// The exact sum of all levels of a frame, which holds the partials of each
/// pitch of a chord at one instant.
pub open spec fn frame_total(frame: Seq<Partials>) -> int
    decreases frame.len(),
{
    if frame.len() == 0 {
        0
    } else {
        frame_total(frame.drop_last()) + partials_total(frame.last())
    }
}

/// The subtotal of one pitch: its four levels added up and wrapped.
pub open spec fn voice(partials: Partials) -> i16 {
    wrap16(partials_total(partials)) as i16
}

/// The sample that a frame mixes down to: all its levels added up and
/// wrapped.
pub open spec fn mixed(frame: Seq<Partials>) -> i16 {
    wrap16(frame_total(frame)) as i16
}

/// Wrapping early or late makes no difference: a sum may be wrapped before a
/// further term is added without changing the wrapped result.
pub proof fn lemma_wrap16_add(x: int, y: int)
    ensures
        wrap16(wrap16(x) + y) == wrap16(x + y),
{
    let q = (x + 0x8000) / 0x1_0000;
    assert(wrap16(x) == x - q * 0x1_0000);
    assert((x + y + 0x8000 - q * 0x1_0000) % 0x1_0000 == (x + y + 0x8000) % 0x1_0000) by {
        vstd::arithmetic::div_mod::lemma_mod_multiples_vanish(-q, x + y + 0x8000, 0x1_0000);
    }
}

/// Rust's wrapping addition on `i16` is exact addition followed by `wrap16`.
pub proof fn lemma_wrapping_add(x: i16, y: i16)
    ensures
        x.wrapping_add(y) == wrap16(x + y),
{
}

/// The subtotal of a pitch is what three wrapping additions make of its four
/// levels, taken in order.
pub proof fn lemma_voice_stepwise(partials: Partials)
    ensures
        voice(partials) == partials[0].wrapping_add(partials[1]).wrapping_add(
            partials[2],
        ).wrapping_add(partials[3]),
{
    let first = partials[0].wrapping_add(partials[1]);
    let second = first.wrapping_add(partials[2]);
    lemma_wrapping_add(partials[0], partials[1]);
    lemma_wrapping_add(first, partials[2]);
    lemma_wrapping_add(second, partials[3]);
    lemma_wrap16_add(partials[0] + partials[1], partials[2] as int);
    lemma_wrap16_add(partials[0] + partials[1] + partials[2], partials[3] as int);
}

/// A frame without pitches mixes down to silence.
pub proof fn lemma_mixed_empty()
    ensures
        mixed(Seq::<Partials>::empty()) == 0,
{
}

/// Each further pitch enters the sample by one wrapping addition of its
/// subtotal.
pub proof fn lemma_mixed_push(frame: Seq<Partials>, partials: Partials)
    ensures
        mixed(frame.push(partials)) == mixed(frame).wrapping_add(voice(partials)),
{
    assert(frame.push(partials).drop_last() == frame);
    assert(frame.push(partials).last() == partials);
    lemma_wrapping_add(mixed(frame), voice(partials));
    lemma_wrap16_add(partials_total(partials), frame_total(frame));
    lemma_wrap16_add(frame_total(frame), voice(partials) as int);
}

/// A frame whose levels add up to a value that fits in 16 bits is mixed
/// exactly: the sample is that sum, free of wrap-around.
pub proof fn lemma_mixed_exact(frame: Seq<Partials>)
    requires
        -0x8000 <= frame_total(frame) <= 0x7fff,
    ensures
        mixed(frame) == frame_total(frame),
{
}

/// Adds up the four levels of one pitch, wrapping at 16 bits.
pub fn mix_partials(partials: &Partials) -> (sum: i16)
    ensures
        sum == voice(*partials),
{
    proof {
        lemma_voice_stepwise(*partials);
    }
    partials[0].wrapping_add(partials[1]).wrapping_add(partials[2]).wrapping_add(partials[3])
}

/// Mixes a frame down to one sample: the levels of each pitch are added up,
/// and then the subtotals of the pitches, wrapping at 16 bits throughout.
pub fn mix_frame(frame: &[Partials]) -> (sample: i16)
    ensures
        sample == mixed(frame@),
{
    let mut sample: i16 = 0;
    let mut done: usize = 0;
    proof {
        lemma_mixed_empty();
        assert(frame@.take(0) == Seq::<Partials>::empty());
    }
    while done < frame.len()
        invariant
            done <= frame@.len(),
            sample == mixed(frame@.take(done as int)),
        decreases frame@.len() - done,
    {
        let subtotal: i16 = mix_partials(&frame[done]);
        proof {
            lemma_mixed_push(frame@.take(done as int), frame@[done as int]);
            assert(frame@.take(done + 1) == frame@.take(done as int).push(frame@[done as int]));
        }
        sample = sample.wrapping_add(subtotal);
        done = done + 1;
    }
    assert(frame@.take(done as int) == frame@);
    sample
}

} // verus!
