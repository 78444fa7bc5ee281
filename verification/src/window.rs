//! Immutable snapshot of (part of) a channel: the unit of analysis.

use vstd::prelude::*;

use crate::signal::{capture_ranged, window_ranged, MAX_WINDOW_LEN, WINDOW_LIMIT};

verus! {

/// A finite, immutable window of samples, the input of the normalizer
/// and of the correlation engine. Windows are bounded in length and in
/// amplitude so that all downstream accumulations provably fit their
/// double-width accumulators.
pub struct SignalWindow {
    samples: Vec<i64>,
}

impl View for SignalWindow {
    type V = Seq<i64>;

    closed spec fn view(&self) -> Seq<i64> {
        self.samples@
    }
}

impl SignalWindow {
    /// Every window is bounded in length and amplitude.
    pub open spec fn wf(&self) -> bool {
        self@.len() <= MAX_WINDOW_LEN && window_ranged(self@)
    }

    /// Builds a window directly from captured samples, which must lie
    /// in the capture amplitude range.
    pub fn from_samples(samples: Vec<i64>) -> (w: SignalWindow)
        requires
            samples@.len() <= MAX_WINDOW_LEN,
            capture_ranged(samples@),
        ensures
            w@ == samples@,
            w.wf(),
    {
        SignalWindow { samples }
    }

    /// Builds a window from samples already in the (wider) window
    /// amplitude range, as the normalizer produces them.
    pub(crate) fn from_ranged_samples(samples: Vec<i64>) -> (w: SignalWindow)
        requires
            samples@.len() <= MAX_WINDOW_LEN,
            window_ranged(samples@),
        ensures
            w@ == samples@,
            w.wf(),
    {
        SignalWindow { samples }
    }

    pub fn len(&self) -> (n: usize)
        ensures
            n == self@.len(),
    {
        self.samples.len()
    }

    pub fn is_empty(&self) -> (r: bool)
        ensures
            r == (self@.len() == 0),
    {
        self.samples.len() == 0
    }

    pub fn get(&self, i: usize) -> (s: i64)
        requires
            i < self@.len(),
        ensures
            s == self@[i as int],
    {
        self.samples[i]
    }

    pub fn samples(&self) -> (v: &Vec<i64>)
        ensures
            v@ == self@,
    {
        &self.samples
    }
}

} // verus!
