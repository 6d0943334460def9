//! Sample-time bookkeeping of the open-loop velocity controller.
use vstd::prelude::*;

verus! {

/// Longest step, in microseconds, that the controller accepts as measured
/// (half a second); anything longer, or a zero step, is taken as a glitch.
pub const MAX_SAMPLE_TIME_US: u64 = 500_000;

/// The time step of one controller call.
#[derive(Clone, Copy, Debug, PartialEq, Eq, Structural)]
pub enum SampleTime {
    /// The microseconds measured since the previous call.
    Measured(u64),
    /// The measured step was zero or longer than `MAX_SAMPLE_TIME_US`
    /// (timer overflow, or no previous call): a fixed step of one
    /// millisecond applies.
    Fallback,
}

/// Microseconds from `last` to `now` on a 64-bit timer that wraps around.
pub open spec fn elapsed_us(last: u64, now: u64) -> int {
    if now >= last {
        now - last
    } else {
        now - last + 0x1_0000_0000_0000_0000int
    }
}

/// The step that a call at `now` takes after a call at `last`.
pub open spec fn sample_time_between(last: u64, now: u64) -> SampleTime {
    let dt = elapsed_us(last, now);
    if 0 < dt && dt <= MAX_SAMPLE_TIME_US {
        SampleTime::Measured(dt as u64)
    } else {
        SampleTime::Fallback
    }
}

/// Remembers the timestamp of the controller's previous call.
pub struct OpenLoopClock {
    timestamp_us: u64,
}

impl OpenLoopClock {
    /// The timestamp of the previous call, in microseconds.
    pub closed spec fn timestamp(&self) -> u64 {
        self.timestamp_us
    }

    /// A clock that has seen no call yet: its timestamp is zero.
    pub fn new() -> (c: Self)
        ensures
            c.timestamp() == 0,
    {
        OpenLoopClock { timestamp_us: 0 }
    }

    /// The timestamp of the previous call, in microseconds.
    pub fn last_timestamp(&self) -> (t: u64)
        ensures
            t == self.timestamp(),
    {
        self.timestamp_us
    }

    /// Takes the time step of a call at `now_us` and records `now_us` as the
    /// timestamp of the latest call.
    pub fn advance(&mut self, now_us: u64) -> (t: SampleTime)
        ensures
            t == sample_time_between(old(self).timestamp(), now_us),
            final(self).timestamp() == now_us,
    {
        let dt_us = now_us.wrapping_sub(self.timestamp_us);
        let t = if dt_us == 0 || dt_us > MAX_SAMPLE_TIME_US {
            SampleTime::Fallback
        } else {
            SampleTime::Measured(dt_us)
        };
        self.timestamp_us = now_us;
        t
    }
}

/// Every step lies between one microsecond and `MAX_SAMPLE_TIME_US`.
pub proof fn lemma_sample_time_bounded(last: u64, now: u64)
    ensures
        match sample_time_between(last, now) {
            SampleTime::Measured(dt) => 1 <= dt <= MAX_SAMPLE_TIME_US,
            SampleTime::Fallback => true,
        },
{
}

/// A call at `t2` after a call at `t1` measures the time between them
/// when that is positive and at most `MAX_SAMPLE_TIME_US`, also where the
/// timer wrapped around between the two calls.
pub proof fn lemma_consecutive_calls_measure_interval(t1: u64, t2: u64)
    requires
        0 < elapsed_us(t1, t2) <= MAX_SAMPLE_TIME_US,
    ensures
        sample_time_between(t1, t2) == SampleTime::Measured(elapsed_us(t1, t2) as u64),
        t1 < t2 ==> sample_time_between(t1, t2) == SampleTime::Measured((t2 - t1) as u64),
{
}

/// The elapsed time is the timer difference taken modulo 2^64: the one
/// value in `0 .. 2^64` that, added to the previous timestamp, wraps to the
/// current one.
pub proof fn lemma_elapsed_is_wrapping_difference(last: u64, now: u64)
    ensures
        0 <= elapsed_us(last, now) < 0x1_0000_0000_0000_0000int,
        (last + elapsed_us(last, now)) % 0x1_0000_0000_0000_0000int == now,
        elapsed_us(last, now) == (now - last + 0x1_0000_0000_0000_0000int)
            % 0x1_0000_0000_0000_0000int,
{
}

/// The step is the time since the previous call exactly when that time is
/// between 1 and 500 000 microseconds; a zero step, or one longer than half
/// a second, gives the fallback.
pub proof fn lemma_sample_time_cases(last: u64, now: u64)
    ensures
        ({
            let d = (now - last + 0x1_0000_0000_0000_0000int) % 0x1_0000_0000_0000_0000int;
            &&& (d == 0 || d > 500_000) ==> sample_time_between(last, now)
                == SampleTime::Fallback
            &&& (0 < d <= 500_000) ==> sample_time_between(last, now)
                == SampleTime::Measured(d as u64)
        }),
        sample_time_between(last, now) matches SampleTime::Measured(dt) ==> (last + dt)
            % 0x1_0000_0000_0000_0000int == now,
{
    lemma_elapsed_is_wrapping_difference(last, now);
}

/// A second call with the same timestamp takes the fallback step.
pub proof fn lemma_repeated_timestamp_falls_back(t: u64)
    ensures
        sample_time_between(t, t) == SampleTime::Fallback,
{
}

} // verus!
