use vstd::prelude::*;

use crate::span::Span;

verus! {

/// An instant on the wall clock: seconds relative to the Unix epoch and a
/// sub-second remainder in nanoseconds. Every record of one batch carries
/// the same instant, even though the snapshot it comes from covers an
/// interval.
#[derive(Clone, Copy, Debug, PartialEq, Eq, Structural)]
pub struct Timestamp {
    /// Seconds since the Unix epoch; negative for instants before it.
    pub secs: i64,
    /// Sub-second remainder in nanoseconds.
    pub nanos: u32,
}

/// One key-value tag. The remote service uses dimensions to filter and
/// group records; every record of one batch carries the same dimensions.
#[derive(Debug)]
pub struct Dimension {
    pub name: String,
    pub value: String,
}

impl Clone for Dimension {
    fn clone(&self) -> (d: Self)
        ensures
            d.name@ == self.name@,
            d.value@ == self.value@,
    {
        Dimension { name: self.name.clone(), value: self.value.clone() }
    }
}

/// The key-value pairs of one dimension, as sequences of characters.
pub open spec fn dim_view(d: Dimension) -> (Seq<char>, Seq<char>) {
    (d.name@, d.value@)
}

/// The value of an optional dimension list: the key-value pairs in order,
/// or nothing where the caller supplied no dimensions.
pub open spec fn dims_view(dims: Option<Vec<Dimension>>) -> Option<
    Seq<(Seq<char>, Seq<char>)>,
> {
    match dims {
        Option::Some(v) => Option::Some(v@.map_values(|d: Dimension| dim_view(d))),
        Option::None => Option::None,
    }
}

/// Copies an optional dimension list, preserving its value.
pub fn clone_dims(dims: &Option<Vec<Dimension>>) -> (r: Option<Vec<Dimension>>)
    ensures
        dims_view(r) == dims_view(*dims),
{
    match dims {
        Option::None => Option::None,
        Option::Some(v) => {
            let mut out: Vec<Dimension> = Vec::new();
            let mut i: usize = 0;
            while i < v.len()
                invariant
                    i <= v@.len(),
                    out@.len() == i,
                    forall|j: int| 0 <= j < i ==> dim_view(#[trigger] out@[j]) == dim_view(v@[j]),
                decreases v@.len() - i,
            {
                out.push(v[i].clone());
                i = i + 1;
            }
            proof {
                assert(out@.map_values(|d: Dimension| dim_view(d)) =~= v@.map_values(
                    |d: Dimension| dim_view(d),
                ));
            }
            Option::Some(out)
        },
    }
}

/// The unit a record's numeric value is tagged with.
#[derive(Clone, Copy, Debug, PartialEq, Eq, Structural)]
pub enum MetricUnit {
    Count,
    Microseconds,
    Percent,
}

/// A record's numeric value, kept exact: the floating-point number the
/// remote service receives is only produced at the boundary that hands the
/// batch over, so nothing is rounded while the batch is shaped.
#[derive(Clone, Copy, Debug, PartialEq, Eq, Structural)]
pub enum MetricValue {
    /// An event count.
    Count(u64),
    /// A length of time; the value sent is the span's length in
    /// microseconds, including any sub-microsecond remainder.
    Micros(Span),
    /// A dimensionless ratio `numer / denom`, left undivided.
    Ratio { numer: u64, denom: u64 },
}

/// One named, unit-tagged, timestamped and dimensioned value destined for
/// the remote telemetry service. Created fresh for every snapshot.
#[derive(Debug)]
pub struct MetricRecord {
    pub name: &'static str,
    pub unit: MetricUnit,
    pub value: MetricValue,
    pub timestamp: Timestamp,
    pub dimensions: Option<Vec<Dimension>>,
}

/// The set of records submitted to the remote service in one call, scoped
/// by a namespace.
#[derive(Debug)]
pub struct Batch {
    pub namespace: String,
    pub records: Vec<MetricRecord>,
}

} // verus!
