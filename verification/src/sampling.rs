//! The sample window of the two current sensors: the latest raw ADC readings
//! and how many readings went into the running RMS sums since the window
//! was last closed.
use vstd::prelude::*;

verus! {

/// What closing a window of `count` samples reports: the number of samples
/// to divide the sums of squares by, or `None` where the window is empty
/// and the previous RMS values stand.
pub open spec fn window_report(count: nat) -> Option<u32> {
    if count == 0 {
        None
    } else {
        Some(count as u32)
    }
}

/// Latest raw readings of phases A and B and the number of samples taken
/// since the window was last closed.
pub struct SampleWindow {
    a0: u16,
    a1: u16,
    sample_count: u32,
}

impl SampleWindow {
    /// Latest raw reading of phase A.
    pub closed spec fn reading_a(&self) -> u16 {
        self.a0
    }

    /// Latest raw reading of phase B.
    pub closed spec fn reading_b(&self) -> u16 {
        self.a1
    }

    /// Samples taken since the window was last closed.
    pub closed spec fn count(&self) -> nat {
        self.sample_count as nat
    }

    /// An empty window whose readings are both zero.
    pub fn new() -> (w: Self)
        ensures
            w.reading_a() == 0,
            w.reading_b() == 0,
            w.count() == 0,
    {
        SampleWindow { a0: 0, a1: 0, sample_count: 0 }
    }

    /// Stores a new pair of raw readings and counts one more sample.
    pub fn record(&mut self, a0: u16, a1: u16)
        requires
            old(self).count() < u32::MAX,
        ensures
            final(self).reading_a() == a0,
            final(self).reading_b() == a1,
            final(self).count() == old(self).count() + 1,
    {
        self.a0 = a0;
        self.a1 = a1;
        self.sample_count = self.sample_count + 1;
    }

    /// Closes the window: reports how many samples it held (`None` where it
    /// held none) and starts an empty one. The readings stay.
    pub fn close(&mut self) -> (n: Option<u32>)
        ensures
            n == window_report(old(self).count()),
            final(self).count() == 0,
            final(self).reading_a() == old(self).reading_a(),
            final(self).reading_b() == old(self).reading_b(),
    {
        let n = if self.sample_count > 0 {
            Some(self.sample_count)
        } else {
            None
        };
        self.sample_count = 0;
        n
    }

    /// Latest raw reading of phase A.
    pub fn last_a(&self) -> (r: u16)
        ensures
            r == self.reading_a(),
    {
        self.a0
    }

    /// Latest raw reading of phase B.
    pub fn last_b(&self) -> (r: u16)
        ensures
            r == self.reading_b(),
    {
        self.a1
    }

    /// Samples taken since the window was last closed.
    pub fn sample_count(&self) -> (r: u32)
        ensures
            r == self.count(),
    {
        self.sample_count
    }
}

/// Closing a window of `n` samples reports `n` exactly when `n` is positive;
/// closing the empty window that follows reports nothing, so the RMS values
/// of the first close stand.
pub proof fn lemma_close_reports_samples(n: nat)
    requires
        n <= u32::MAX,
    ensures
        n > 0 ==> window_report(n) == Some(n as u32),
        n == 0 <==> window_report(n) is None,
        window_report(0) is None,
{
}

} // verus!
