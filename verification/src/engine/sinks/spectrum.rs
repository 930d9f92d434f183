//! The framing stage at the tail of the pipeline.
//!
//! The stage turns an open-ended stream of spectrum bins into frames of a
//! fixed size and hands each frame to the event sink. It never takes part of
//! a frame, never more than one frame at a time, and never lets a slow sink
//! stall the pipeline for good: a frame the sink has no room for is dropped,
//! and the stream moves on all the same.
//!
//! The policy of delivery is fixed when the stage is made. Reading the
//! stream and sending the frame are the caller's work; what to take from the
//! stream and what to do once the sink has answered is decided here.

use crate::engine::lifecycle::{Directive, EngineView, Occurrence, Stage};
use crate::messages::units::Hertz;
use vstd::prelude::*;

verus! {

/// How a frame is handed to the event sink.
#[derive(Debug, Clone, Copy, PartialEq, Eq, Structural)]
pub enum DeliveryPolicy {
    /// Wait until the sink takes the frame. A slow display slows the
    /// pipeline down.
    Blocking,
    /// Never wait. A frame the sink has no room for is dropped.
    BestEffort,
}

/// What became of a frame that was handed to the event sink.
#[derive(Debug, Clone, Copy, PartialEq, Eq, Structural)]
pub enum Delivery {
    /// The sink took the frame.
    Accepted,
    /// The sink had no room and the frame is lost.
    Full,
    /// The sink is closed for good.
    Disconnected,
}

/// What the stage tells its scheduler.
#[derive(Debug, Clone, Copy, PartialEq, Eq, Structural)]
pub enum Verdict {
    /// Less than a frame is buffered: call again when more has come.
    Pending,
    /// A frame was taken: call again at once.
    Again,
    /// The stage is done and will take nothing more.
    Eof,
}

/// The outcome of one delivery for the stream.
#[derive(Debug, Clone, Copy, PartialEq, Eq, Structural)]
pub struct Progress {
    /// How many bins the stream moves on by.
    pub consumed: usize,
    /// What the scheduler is told.
    pub verdict: Verdict,
    /// Whether the frame was lost to a full sink.
    pub dropped: bool,
}

/// Moves the zero-frequency bin from the edge of a frame to its middle: the
/// upper half of the bins comes first, the lower half after it.
pub open spec fn spec_fft_shift<S>(bins: Seq<S>) -> Seq<S> {
    bins.skip((bins.len() / 2) as int) + bins.take((bins.len() / 2) as int)
}

/// The frame that is cut from `input` when frames hold `fft_size` bins: none
/// while less than a frame is buffered, else the first `fft_size` bins with
/// the zero-frequency bin moved to the middle.
pub open spec fn spec_frame<S>(fft_size: usize, input: Seq<S>) -> Option<Seq<S>> {
    if input.len() < fft_size {
        None
    } else {
        Some(spec_fft_shift(input.take(fft_size as int)))
    }
}

/// What follows for the stream from the sink's answer, when frames hold
/// `fft_size` bins. A frame that was taken or dropped moves the stream on by
/// exactly one frame. A closed sink ends the stage and moves nothing.
pub open spec fn spec_settle(fft_size: usize, outcome: Delivery) -> Progress {
    match outcome {
        Delivery::Accepted => Progress { consumed: fft_size, verdict: Verdict::Again, dropped: false },
        Delivery::Full => Progress { consumed: fft_size, verdict: Verdict::Again, dropped: true },
        Delivery::Disconnected => Progress { consumed: 0, verdict: Verdict::Eof, dropped: false },
    }
}

/// A sink stage that cuts the spectrum stream into frames for the display.
/// Frame size and policy are set when the stage is made and stay as they
/// are for its lifetime.
#[derive(Debug, Clone, Copy, PartialEq, Eq)]
pub struct SpectrumSink {
    fft_size: usize,
    policy: DeliveryPolicy,
}

/// A sink stage as a value.
pub struct SpectrumSinkView {
    /// Number of bins in a frame.
    pub fft_size: usize,
    /// How frames are handed to the event sink.
    pub policy: DeliveryPolicy,
}

impl View for SpectrumSink {
    type V = SpectrumSinkView;

    closed spec fn view(&self) -> SpectrumSinkView {
        SpectrumSinkView { fft_size: self.fft_size, policy: self.policy }
    }
}

impl SpectrumSink {
    /// A stage that cuts frames of `fft_size` bins and delivers them under
    /// `policy`.
    pub fn new(fft_size: usize, policy: DeliveryPolicy) -> (r: SpectrumSink)
        ensures
            r@ == (SpectrumSinkView { fft_size, policy }),
    {
        SpectrumSink { fft_size, policy }
    }

    /// Number of bins in a frame.
    pub fn fft_size(&self) -> (r: usize)
        ensures
            r == self@.fft_size,
    {
        self.fft_size
    }

    /// How frames are handed to the event sink.
    pub fn policy(&self) -> (r: DeliveryPolicy)
        ensures
            r == self@.policy,
    {
        self.policy
    }

    /// Cuts the next frame from what is buffered. While `input` holds less
    /// than a frame there is none, and nothing is to be consumed: that is
    /// flow control, not a fault. Else the frame is a copy of the first
    /// `fft_size` bins, whatever more is buffered, with the zero-frequency
    /// bin moved to the middle.
    pub fn frame<S: Copy>(&self, input: &[S]) -> (r: Option<Vec<S>>)
        ensures
            r is Some <==> input@.len() >= self@.fft_size,
            match r {
                Some(frame) => Some(frame@) == spec_frame(self@.fft_size, input@),
                None => spec_frame(self@.fft_size, input@) is None,
            },
            r matches Some(frame) ==> frame@.len() == self@.fft_size,
    {
        let n = self.fft_size;
        if input.len() < n {
            return None;
        }
        let half = n / 2;
        let ghost head = input@.take(n as int);
        let mut frame: Vec<S> = Vec::with_capacity(n);
        let mut i: usize = half;
        while i < n
            invariant
                half <= i <= n <= input@.len(),
                head == input@.take(n as int),
                frame@ == head.subrange(half as int, i as int),
            decreases n - i,
        {
            frame.push(input[i]);
            i += 1;
        }
        let mut j: usize = 0;
        while j < half
            invariant
                j <= half <= n <= input@.len(),
                head == input@.take(n as int),
                frame@ == head.skip(half as int) + head.take(j as int),
            decreases half - j,
        {
            frame.push(input[j]);
            j += 1;
        }
        Some(frame)
    }

    /// Decides what the sink's answer means for the stream. A frame the sink
    /// took moves the stream on by one frame. So does a frame that a full
    /// sink lost: the loss is reported, and it is no fault and no stall. A
    /// sink that is closed ends the stage in good order, with nothing
    /// consumed.
    pub fn settle(&self, outcome: Delivery) -> (r: Progress)
        ensures
            r == spec_settle(self@.fft_size, outcome),
            outcome == Delivery::Full ==> r.consumed == self@.fft_size && r.verdict
                == Verdict::Again && r.dropped,
            r.consumed == 0 || r.consumed == self@.fft_size,
    {
        match outcome {
            Delivery::Accepted => Progress {
                consumed: self.fft_size,
                verdict: Verdict::Again,
                dropped: false,
            },
            Delivery::Full => Progress {
                consumed: self.fft_size,
                verdict: Verdict::Again,
                dropped: true,
            },
            Delivery::Disconnected => Progress {
                consumed: 0,
                verdict: Verdict::Eof,
                dropped: false,
            },
        }
    }
}

/// After the shift, the bin at place `i` is the one that stood half a frame
/// further on, counted round the frame. In a frame with an even number of
/// bins the zero-frequency bin, first before, stands in the middle after.
pub proof fn law_fft_shift_index<S>(bins: Seq<S>, i: int)
    requires
        0 <= i < bins.len(),
    ensures
        spec_fft_shift(bins).len() == bins.len(),
        spec_fft_shift(bins)[i] == bins[(i + bins.len() / 2) % (bins.len() as int)],
        bins.len() % 2 == 0 ==> spec_fft_shift(bins)[(bins.len() / 2) as int] == bins[0],
{
    let n = bins.len() as int;
    let half = n / 2;
    if i < n - half {
        assert((i + half) % n == i + half) by {
            vstd::arithmetic::div_mod::lemma_small_mod((i + half) as nat, n as nat);
        }
    } else {
        assert((i + half) % n == i + half - n) by {
            vstd::arithmetic::div_mod::lemma_small_mod((i + half - n) as nat, n as nat);
            vstd::arithmetic::div_mod::lemma_mod_add_multiples_vanish(i + half - n, n);
        }
    }
}

/// Every frame is as long as the snapshot of its pipeline says. The engine
/// directs the build with a frame size, the stage is made with that size,
/// and the snapshot that announces the pipeline names the same.
pub proof fn law_frame_length_is_announced<S>(building: EngineView, rate: Hertz, input: Seq<S>)
    requires
        building.stage == Stage::Building,
    ensures
        building.directive() is Build,
        building.step(Occurrence::Built { sample_rate: rate }).directive() is Publish,
        spec_frame(building.directive()->fft_size, input) matches Some(frame) ==> frame.len()
            == building.step(Occurrence::Built { sample_rate: rate }).directive()->Publish_0.fft_size,
{
}

} // verus!
