//! Performance counters for the step operation.
//!
//! An explicitly-owned accumulator of step invocation counts and elapsed
//! computation time, read and reset together by a single destructive query.
//! Both counters saturate instead of wrapping, so recording can never panic
//! and a long-running world degrades to a pinned report rather than a wrong
//! one.

use vstd::prelude::*;

verus! {

/// The saturating sum of two counter values.
pub open spec fn saturated_add(a: u64, b: u64) -> u64 {
    if a + b > u64::MAX {
        u64::MAX
    } else {
        (a + b) as u64
    }
}

/// The reported average time per call, in thousandths of the recorded time
/// unit, truncated; zero when nothing was recorded, pinned at the counter
/// maximum when the quotient does not fit.
pub open spec fn average_time(calls: u64, time: u64) -> u64 {
    if calls == 0 {
        0
    } else if (time as int) * 1000 / (calls as int) > u64::MAX {
        u64::MAX
    } else {
        ((time as int) * 1000 / (calls as int)) as u64
    }
}

/// The triple a metrics read reports: total calls, total time, average time.
pub open spec fn metrics_report(calls: u64, time: u64) -> (u64, u64, u64) {
    (calls, time, average_time(calls, time))
}

/// Accumulated step statistics: how many steps ran and how much time they
/// took, in a time unit of the caller's choice.
pub struct MetricsContext {
    pub total_calls: u64,
    pub total_time: u64,
}

impl MetricsContext {
    /// A fresh context with both counters at zero.
    pub fn new() -> (m: Self)
        ensures
            m.total_calls == 0,
            m.total_time == 0,
    {
        MetricsContext { total_calls: 0, total_time: 0 }
    }

    /// Records one step invocation that took `elapsed` time units.
    pub fn record_step(&mut self, elapsed: u64)
        ensures
            final(self).total_calls == saturated_add(old(self).total_calls, 1),
            final(self).total_time == saturated_add(old(self).total_time, elapsed),
    {
        if self.total_calls < u64::MAX {
            self.total_calls = self.total_calls + 1;
        }
        if self.total_time > u64::MAX - elapsed {
            self.total_time = u64::MAX;
        } else {
            self.total_time = self.total_time + elapsed;
        }
    }

    /// Destructive read: reports both counters and the derived average, and
    /// resets the counters to zero in the same call.
    pub fn get_performance_metrics(&mut self) -> (r: (u64, u64, u64))
        ensures
            r == metrics_report(old(self).total_calls, old(self).total_time),
            final(self).total_calls == 0,
            final(self).total_time == 0,
    {
        let calls = self.total_calls;
        let time = self.total_time;
        let avg: u64 = if calls == 0 {
            0
        } else {
            let q: u128 = (time as u128) * 1000 / (calls as u128);
            if q > (u64::MAX as u128) {
                u64::MAX
            } else {
                q as u64
            }
        };
        self.total_calls = 0;
        self.total_time = 0;
        (calls, time, avg)
    }
}

/// Reading the metrics resets them, so an immediately repeated read — with no
/// recording in between — reports all zeros.
pub proof fn lemma_metrics_reset()
    ensures
        metrics_report(0u64, 0u64) == (0u64, 0u64, 0u64),
{
}

} // verus!
