//! The sample stream of a chord.
//!
//! A stream is pulled once for each sample. The caller looks up the index of
//! the coming sample with [`Samples::position`], evaluates the harmonics of
//! each pitch at that instant, and passes them to [`Samples::next`] as one
//! frame; the stream mixes the frame down and moves on. The proof functions
//! at the end of this module state what holds of a stream pulled again and
//! again: how many samples it yields, what they are, and that a stream opened
//! anew yields them again.

use crate::mix::{mix_frame, mixed, Partials};
use crate::pitch::Pitch;
use vstd::prelude::*;

verus! {

/// A finite stream of signed 16-bit samples over the pitches of a chord.
///
/// The stream keeps count: it knows the index of the sample that comes next
/// and the number of samples it has to yield in all. The levels themselves
/// come from the caller, one frame for each sample.
#[derive(Clone, Copy, Debug, PartialEq)]
pub struct Samples<'a> {
    current: u32,
    max: u32,
    pitches: &'a [Pitch],
}

/// The state of a stream.
pub struct SamplesView {
    /// The index of the sample that comes next.
    pub current: nat,
    /// The number of samples that the stream yields from index 0 on.
    pub max: nat,
    /// The pitches that the stream renders.
    pub pitches: Seq<Pitch>,
}

impl SamplesView {
    /// A stream at its start.
    pub open spec fn fresh(pitches: Seq<Pitch>, max: nat) -> SamplesView {
        SamplesView { current: 0, max, pitches }
    }

    /// The index never passes the sample count, which fits in 32 bits.
    pub open spec fn wf(self) -> bool {
        self.current <= self.max <= u32::MAX
    }

    /// The number of samples still to come.
    pub open spec fn remaining(self) -> nat {
        (self.max - self.current) as nat
    }

    /// Whether the stream has yielded all its samples.
    pub open spec fn exhausted(self) -> bool {
        self.current >= self.max
    }

    /// The stream after it has yielded one more sample.
    pub open spec fn advance(self) -> SamplesView {
        SamplesView { current: self.current + 1, ..self }
    }

    /// One pull on the stream: the state it leaves and the sample it yields
    /// for `frame`, or no sample, and no change, once the stream is exhausted.
    pub open spec fn step(self, frame: Seq<Partials>) -> (SamplesView, Option<i16>) {
        if self.exhausted() {
            (self, None)
        } else {
            (self.advance(), Some(mixed(frame)))
        }
    }

    /// The samples that the stream yields when it is pulled once for each of
    /// `frames`, in order, and stopped at the first pull that yields none.
    pub open spec fn run(self, frames: Seq<Seq<Partials>>) -> Seq<i16>
        decreases frames.len(),
    {
        if frames.len() == 0 {
            Seq::empty()
        } else {
            let (next, sample) = self.step(frames.first());
            match sample {
                Some(value) => seq![value] + next.run(frames.drop_first()),
                None => Seq::empty(),
            }
        }
    }
}

impl<'a> View for Samples<'a> {
    type V = SamplesView;

    closed spec fn view(&self) -> SamplesView {
        SamplesView { current: self.current as nat, max: self.max as nat, pitches: self.pitches@ }
    }
}

impl<'a> Samples<'a> {
    #[verifier::type_invariant]
    spec fn index_within_count(self) -> bool {
        self.current <= self.max
    }

    /// Creates a stream that will yield the samples from index `current` up
    /// to, and without, index `max`.
    pub fn new(current: u32, max: u32, pitches: &'a [Pitch]) -> (stream: Self)
        requires
            current <= max,
        ensures
            stream@ == (SamplesView { current: current as nat, max: max as nat, pitches: pitches@ }),
            stream@.wf(),
    {
        Samples { current, max, pitches }
    }

    /// Returns the index of the sample that the next pull yields, or `None`
    /// once the stream is exhausted.
    pub fn position(&self) -> (index: Option<u32>)
        ensures
            self@.wf(),
            index == if self@.exhausted() { None } else { Some(self@.current as u32) },
    {
        proof {
            use_type_invariant(self);
        }
        if self.current >= self.max {
            None
        } else {
            Some(self.current)
        }
    }

    /// Returns the pitches that the stream renders: a frame holds the
    /// partials of each of them, in this order.
    pub fn pitches(&self) -> (pitches: &'a [Pitch])
        ensures
            pitches@ == self@.pitches,
    {
        self.pitches
    }

    /// Pulls the next sample.
    ///
    /// `frame` holds, for each pitch of the stream, the levels of its
    /// harmonics at the instant of the sample at [`Samples::position`]. The
    /// sample is the frame mixed down, and the stream moves on by one. An
    /// exhausted stream yields `None`, stays as it is, and does not look at
    /// the frame.
    pub fn next(&mut self, frame: &[Partials]) -> (sample: Option<i16>)
        requires
            !old(self)@.exhausted() ==> frame@.len() == old(self)@.pitches.len(),
        ensures
            (final(self)@, sample) == old(self)@.step(frame@),
            final(self)@.wf(),
    {
        proof {
            use_type_invariant(&*self);
        }
        if self.current >= self.max {
            return None;
        }
        let sample: i16 = mix_frame(frame);
        self.current = self.current + 1;
        Some(sample)
    }

    /// Returns the number of samples still to come.
    pub fn len(&self) -> (left: usize)
        ensures
            self@.wf(),
            left == self@.remaining(),
    {
        proof {
            use_type_invariant(self);
        }
        (self.max - self.current) as usize
    }

    /// Returns the bounds on the number of samples still to come. Both are
    /// exact.
    pub fn size_hint(&self) -> (hint: (usize, Option<usize>))
        ensures
            self@.wf(),
            hint.0 == self@.remaining(),
            hint.1 == Some(hint.0),
    {
        let size: usize = self.len();
        (size, Some(size))
    }
}

/// A stream yields one sample for each pull until none remain: pulled once
/// for each of `frames`, it yields as many samples as there are frames, or as
/// many as it had left if that is fewer.
pub proof fn lemma_run_len(stream: SamplesView, frames: Seq<Seq<Partials>>)
    requires
        stream.wf(),
    ensures
        stream.run(frames).len() == if frames.len() <= stream.remaining() {
            frames.len()
        } else {
            stream.remaining()
        },
    decreases frames.len(),
{
    if frames.len() > 0 && !stream.exhausted() {
        lemma_run_len(stream.advance(), frames.drop_first());
    }
}

/// A stream opened for `max` samples and pulled until it yields no more
/// yields exactly `max` samples.
pub proof fn lemma_fresh_run_len(pitches: Seq<Pitch>, max: nat, frames: Seq<Seq<Partials>>)
    requires
        max <= u32::MAX,
        frames.len() >= max,
    ensures
        SamplesView::fresh(pitches, max).run(frames).len() == max,
{
    lemma_run_len(SamplesView::fresh(pitches, max), frames);
}

/// Each sample that a stream yields is the mix of the frame that it was
/// pulled with.
pub proof fn lemma_run_index(stream: SamplesView, frames: Seq<Seq<Partials>>, i: int)
    requires
        stream.wf(),
        0 <= i < stream.run(frames).len(),
    ensures
        i < frames.len(),
        stream.run(frames)[i] == mixed(frames[i]),
    decreases frames.len(),
{
    lemma_run_len(stream, frames);
    if i > 0 {
        lemma_run_index(stream.advance(), frames.drop_first(), i - 1);
    }
}

/// What a stream yields depends on nothing but the number of samples it has
/// left and the frames it is pulled with. So two streams opened on one chord
/// for the same number of samples, and pulled with the same frames, yield the
/// same samples, however far either has come in the meantime.
pub proof fn lemma_run_restartable(
    first: SamplesView,
    second: SamplesView,
    frames: Seq<Seq<Partials>>,
)
    requires
        first.wf(),
        second.wf(),
        first.remaining() == second.remaining(),
    ensures
        first.run(frames) == second.run(frames),
    decreases frames.len(),
{
    if frames.len() > 0 && !first.exhausted() {
        lemma_run_restartable(first.advance(), second.advance(), frames.drop_first());
    }
}

/// A stream over no pitches yields silence: its frames are empty, and every
/// sample is 0.
pub proof fn lemma_run_silent(stream: SamplesView, frames: Seq<Seq<Partials>>)
    requires
        stream.wf(),
        stream.pitches.len() == 0,
        forall|i: int| 0 <= i < frames.len() ==> (#[trigger] frames[i]).len() == stream.pitches.len(),
    ensures
        forall|i: int| 0 <= i < stream.run(frames).len() ==> #[trigger] stream.run(frames)[i] == 0,
{
    assert forall|i: int| 0 <= i < stream.run(frames).len() implies #[trigger] stream.run(
        frames,
    )[i] == 0 by {
        lemma_run_index(stream, frames, i);
        assert(frames[i] == Seq::<Partials>::empty());
    }
}

} // verus!
