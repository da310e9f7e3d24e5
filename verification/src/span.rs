use vstd::prelude::*;

verus! {

/// A non-negative length of wall-clock time, kept as whole seconds plus a
/// sub-second remainder in nanoseconds, the same shape the standard
/// library's `Duration` uses.
#[derive(Clone, Copy, Debug, PartialEq, Eq, Structural)]
pub struct Span {
    /// Whole seconds.
    pub secs: u64,
    /// Sub-second remainder in nanoseconds; below one second when well-formed.
    pub nanos: u32,
}

impl Span {
    /// A well-formed span keeps its nanosecond part below one second.
    pub open spec fn wf(self) -> bool {
        self.nanos < 1_000_000_000
    }

    /// The exact length of the span in nanoseconds.
    pub open spec fn total_nanos(self) -> int {
        self.secs * 1_000_000_000 + self.nanos
    }

    pub fn new(secs: u64, nanos: u32) -> (s: Span)
        requires
            nanos < 1_000_000_000,
        ensures
            s.wf(),
            s.secs == secs,
            s.nanos == nanos,
    {
        Span { secs, nanos }
    }

    pub fn zero() -> (s: Span)
        ensures
            s.wf(),
            s.total_nanos() == 0,
    {
        Span { secs: 0, nanos: 0 }
    }

    /// The span's length in microseconds, exactly: a whole-microsecond part
    /// and a remainder of fewer than 1000 nanoseconds. Nothing is lost:
    /// `parts.0 * 1000 + parts.1` recovers the span to the nanosecond, so a
    /// remainder below one microsecond is never truncated away.
    pub fn micros_parts(&self) -> (parts: (u128, u32))
        requires
            self.wf(),
        ensures
            parts.0 * 1000 + parts.1 == self.total_nanos(),
            parts.1 < 1000,
    {
        let total: u128 = self.secs as u128 * 1_000_000_000 + self.nanos as u128;
        let whole: u128 = total / 1000;
        let rem: u32 = (total % 1000) as u32;
        proof {
            assert(total == (total / 1000) * 1000 + total % 1000) by (nonlinear_arith);
        }
        (whole, rem)
    }
}

} // verus!
