use vstd::prelude::*;

use crate::span::Span;

verus! {

/// One accumulated-interval reading of task-execution statistics, as the
/// in-process monitor reports it: event counters and total durations, from
/// which the mean durations and the slow-poll ratio are derived at read
/// time. Immutable once produced.
#[derive(Clone, Copy, Debug, PartialEq, Eq, Structural)]
pub struct MetricsSnapshot {
    /// Tasks instrumented over the interval.
    pub instrumented_count: u64,
    /// Instrumented tasks dropped over the interval.
    pub dropped_count: u64,
    /// Tasks polled for the first time over the interval.
    pub first_poll_count: u64,
    /// Total delay between instrumentation and first poll.
    pub total_first_poll_delay: Span,
    /// Times a task went idle over the interval.
    pub total_idled_count: u64,
    /// Total time tasks spent idle.
    pub total_idle_duration: Span,
    /// Times a task was scheduled over the interval.
    pub total_scheduled_count: u64,
    /// Total time tasks spent waiting to run after being awoken.
    pub total_scheduled_duration: Span,
    /// Polls over the interval.
    pub total_poll_count: u64,
    /// Total time spent polling.
    pub total_poll_duration: Span,
    /// Polls that completed under the monitor's slow-poll threshold.
    pub total_fast_poll_count: u64,
    /// Total time spent on fast polls.
    pub total_fast_poll_duration: Span,
    /// Polls that reached the monitor's slow-poll threshold.
    pub total_slow_poll_count: u64,
    /// Total time spent on slow polls.
    pub total_slow_poll_duration: Span,
}

/// The mean length, in nanoseconds, of `count` events that together took
/// `total`: the truncated quotient, and zero when no event occurred. This is
/// the derivation the task monitor itself uses for its mean durations.
pub open spec fn mean_nanos(total: Span, count: u64) -> int {
    if count == 0 {
        0
    } else {
        total.total_nanos() / (count as int)
    }
}

/// The mean of `count` events that together took `total`, as a span:
/// `mean_nanos` split back into whole seconds and a sub-second remainder.
pub open spec fn mean_span_of(total: Span, count: u64) -> Span {
    Span {
        secs: (mean_nanos(total, count) / 1_000_000_000) as u64,
        nanos: (mean_nanos(total, count) % 1_000_000_000) as u32,
    }
}

/// Divides `total` by `count`, truncating to the nanosecond; zero when
/// `count` is zero.
fn mean_span(total: Span, count: u64) -> (m: Span)
    requires
        total.wf(),
        total.total_nanos() <= u64::MAX,
    ensures
        m == mean_span_of(total, count),
        m.wf(),
        m.total_nanos() == mean_nanos(total, count),
{
    if count == 0 {
        Span { secs: 0, nanos: 0 }
    } else {
        let t: u64 = total.secs * 1_000_000_000 + total.nanos as u64;
        let q: u64 = t / count;
        let m = Span { secs: q / 1_000_000_000, nanos: (q % 1_000_000_000) as u32 };
        proof {
            assert(q == (q / 1_000_000_000) * 1_000_000_000 + q % 1_000_000_000)
                by (nonlinear_arith);
        }
        m
    }
}

impl MetricsSnapshot {
    /// Every duration keeps its nanosecond part below one second and fits in
    /// `u64::MAX` nanoseconds (about 584 years), as the monitor's own
    /// accumulation guarantees for one interval.
    pub open spec fn wf(self) -> bool {
        &&& self.total_first_poll_delay.wf()
        &&& self.total_first_poll_delay.total_nanos() <= u64::MAX
        &&& self.total_idle_duration.wf()
        &&& self.total_idle_duration.total_nanos() <= u64::MAX
        &&& self.total_scheduled_duration.wf()
        &&& self.total_scheduled_duration.total_nanos() <= u64::MAX
        &&& self.total_poll_duration.wf()
        &&& self.total_poll_duration.total_nanos() <= u64::MAX
        &&& self.total_fast_poll_duration.wf()
        &&& self.total_fast_poll_duration.total_nanos() <= u64::MAX
        &&& self.total_slow_poll_duration.wf()
        &&& self.total_slow_poll_duration.total_nanos() <= u64::MAX
    }

    /// Mean delay between a task's instrumentation and its first poll:
    /// `total_first_poll_delay ÷ first_poll_count`.
    pub fn mean_first_poll_delay(&self) -> (m: Span)
        requires
            self.wf(),
        ensures
            m == mean_span_of(self.total_first_poll_delay, self.first_poll_count),
            m.wf(),
    {
        mean_span(self.total_first_poll_delay, self.first_poll_count)
    }

    /// Mean duration of idles: `total_idle_duration ÷ total_idled_count`.
    pub fn mean_idle_duration(&self) -> (m: Span)
        requires
            self.wf(),
        ensures
            m == mean_span_of(self.total_idle_duration, self.total_idled_count),
            m.wf(),
    {
        mean_span(self.total_idle_duration, self.total_idled_count)
    }

    /// Mean time spent waiting to run after being awoken:
    /// `total_scheduled_duration ÷ total_scheduled_count`.
    pub fn mean_scheduled_duration(&self) -> (m: Span)
        requires
            self.wf(),
        ensures
            m == mean_span_of(self.total_scheduled_duration, self.total_scheduled_count),
            m.wf(),
    {
        mean_span(self.total_scheduled_duration, self.total_scheduled_count)
    }

    /// Mean poll duration: `total_poll_duration ÷ total_poll_count`.
    pub fn mean_poll_duration(&self) -> (m: Span)
        requires
            self.wf(),
        ensures
            m == mean_span_of(self.total_poll_duration, self.total_poll_count),
            m.wf(),
    {
        mean_span(self.total_poll_duration, self.total_poll_count)
    }

    /// Mean duration of fast polls:
    /// `total_fast_poll_duration ÷ total_fast_poll_count`.
    pub fn mean_fast_poll_duration(&self) -> (m: Span)
        requires
            self.wf(),
        ensures
            m == mean_span_of(self.total_fast_poll_duration, self.total_fast_poll_count),
            m.wf(),
    {
        mean_span(self.total_fast_poll_duration, self.total_fast_poll_count)
    }

    /// Mean duration of slow polls:
    /// `total_slow_poll_duration ÷ total_slow_poll_count`.
    pub fn mean_slow_poll_duration(&self) -> (m: Span)
        requires
            self.wf(),
        ensures
            m == mean_span_of(self.total_slow_poll_duration, self.total_slow_poll_count),
            m.wf(),
    {
        mean_span(self.total_slow_poll_duration, self.total_slow_poll_count)
    }

    /// The slow-poll ratio as the monitor derives it — slow polls over all
    /// polls — kept as an unevaluated numerator and denominator, since the
    /// division is only performed in the floating-point value handed to the
    /// remote service.
    pub fn slow_poll_ratio_parts(&self) -> (r: (u64, u64))
        ensures
            r.0 == self.total_slow_poll_count,
            r.1 == self.total_poll_count,
    {
        (self.total_slow_poll_count, self.total_poll_count)
    }
}

} // verus!
