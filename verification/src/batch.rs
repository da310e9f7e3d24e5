use vstd::prelude::*;

use crate::metric::{clone_dims, dims_view, Batch, Dimension, MetricRecord, MetricUnit,
    MetricValue, Timestamp};
use crate::snapshot::{mean_span_of, MetricsSnapshot};

verus! {

/// One record of a batch, carrying the batch's shared timestamp and its own
/// copy of the batch's shared dimension list.
fn record(
    name: &'static str,
    unit: MetricUnit,
    value: MetricValue,
    timestamp: Timestamp,
    dims: &Option<Vec<Dimension>>,
) -> (r: MetricRecord)
    ensures
        r.name@ == name@,
        r.unit == unit,
        r.value == value,
        r.timestamp == timestamp,
        dims_view(r.dimensions) == dims_view(*dims),
{
    MetricRecord { name, unit, value, timestamp, dimensions: clone_dims(dims) }
}

/// Shapes one snapshot into the fixed table of records the remote service
/// is sent: every counter, total duration, derived mean duration and the
/// slow-poll ratio, each under its fixed name and unit, all carrying the
/// one timestamp and the one optional dimension list of the batch.
pub fn build_batch(
    namespace: String,
    dimensions: &Option<Vec<Dimension>>,
    metrics: &MetricsSnapshot,
    timestamp: Timestamp,
) -> (b: Batch)
    requires
        metrics.wf(),
    ensures
        b.namespace@ == namespace@,
        b.records@.len() == 21,
        forall|i: int| 0 <= i < b.records@.len() ==> (#[trigger] b.records@[i]).timestamp
            == timestamp,
        forall|i: int| 0 <= i < b.records@.len() ==> dims_view(
            (#[trigger] b.records@[i]).dimensions,
        ) == dims_view(*dimensions),
        // lifespan
        b.records@[0].name@ == "instrumented_count"@ && b.records@[0].unit == MetricUnit::Count
            && b.records@[0].value == MetricValue::Count(metrics.instrumented_count),
        b.records@[1].name@ == "dropped_count"@ && b.records@[1].unit == MetricUnit::Count
            && b.records@[1].value == MetricValue::Count(metrics.dropped_count),
        // first polls
        b.records@[2].name@ == "first_poll_count"@ && b.records@[2].unit == MetricUnit::Count
            && b.records@[2].value == MetricValue::Count(metrics.first_poll_count),
        b.records@[3].name@ == "total_first_poll_delay"@ && b.records@[3].unit
            == MetricUnit::Microseconds && b.records@[3].value == MetricValue::Micros(
            metrics.total_first_poll_delay,
        ),
        b.records@[4].name@ == "mean_first_poll_delay"@ && b.records@[4].unit
            == MetricUnit::Microseconds && b.records@[4].value == MetricValue::Micros(
            mean_span_of(metrics.total_first_poll_delay, metrics.first_poll_count),
        ),
        // idles
        b.records@[5].name@ == "total_idled_count"@ && b.records@[5].unit == MetricUnit::Count
            && b.records@[5].value == MetricValue::Count(metrics.total_idled_count),
        b.records@[6].name@ == "total_idle_duration"@ && b.records@[6].unit
            == MetricUnit::Microseconds && b.records@[6].value == MetricValue::Micros(
            metrics.total_idle_duration,
        ),
        b.records@[7].name@ == "mean_idle_duration"@ && b.records@[7].unit
            == MetricUnit::Microseconds && b.records@[7].value == MetricValue::Micros(
            mean_span_of(metrics.total_idle_duration, metrics.total_idled_count),
        ),
        // schedules
        b.records@[8].name@ == "total_scheduled_count"@ && b.records@[8].unit
            == MetricUnit::Count && b.records@[8].value == MetricValue::Count(
            metrics.total_scheduled_count,
        ),
        b.records@[9].name@ == "total_scheduled_duration"@ && b.records@[9].unit
            == MetricUnit::Microseconds && b.records@[9].value == MetricValue::Micros(
            metrics.total_scheduled_duration,
        ),
        b.records@[10].name@ == "mean_scheduled_duration"@ && b.records@[10].unit
            == MetricUnit::Microseconds && b.records@[10].value == MetricValue::Micros(
            mean_span_of(metrics.total_scheduled_duration, metrics.total_scheduled_count),
        ),
        // polls
        b.records@[11].name@ == "total_poll_count"@ && b.records@[11].unit == MetricUnit::Count
            && b.records@[11].value == MetricValue::Count(metrics.total_poll_count),
        b.records@[12].name@ == "total_poll_duration"@ && b.records@[12].unit
            == MetricUnit::Microseconds && b.records@[12].value == MetricValue::Micros(
            metrics.total_poll_duration,
        ),
        b.records@[13].name@ == "mean_poll_duration"@ && b.records@[13].unit
            == MetricUnit::Microseconds && b.records@[13].value == MetricValue::Micros(
            mean_span_of(metrics.total_poll_duration, metrics.total_poll_count),
        ),
        b.records@[14].name@ == "slow_poll_ratio"@ && b.records@[14].unit == MetricUnit::Percent
            && b.records@[14].value == (MetricValue::Ratio {
            numer: metrics.total_slow_poll_count,
            denom: metrics.total_poll_count,
        }),
        // fast polls
        b.records@[15].name@ == "total_fast_poll_count"@ && b.records@[15].unit
            == MetricUnit::Count && b.records@[15].value == MetricValue::Count(
            metrics.total_fast_poll_count,
        ),
        b.records@[16].name@ == "total_fast_poll_duration"@ && b.records@[16].unit
            == MetricUnit::Microseconds && b.records@[16].value == MetricValue::Micros(
            metrics.total_fast_poll_duration,
        ),
        b.records@[17].name@ == "mean_fast_poll_duration"@ && b.records@[17].unit
            == MetricUnit::Microseconds && b.records@[17].value == MetricValue::Micros(
            mean_span_of(metrics.total_fast_poll_duration, metrics.total_fast_poll_count),
        ),
        // slow polls
        b.records@[18].name@ == "total_slow_poll_count"@ && b.records@[18].unit
            == MetricUnit::Count && b.records@[18].value == MetricValue::Count(
            metrics.total_slow_poll_count,
        ),
        b.records@[19].name@ == "total_slow_poll_duration"@ && b.records@[19].unit
            == MetricUnit::Microseconds && b.records@[19].value == MetricValue::Micros(
            metrics.total_slow_poll_duration,
        ),
        b.records@[20].name@ == "mean_slow_poll_duration"@ && b.records@[20].unit
            == MetricUnit::Microseconds && b.records@[20].value == MetricValue::Micros(
            mean_span_of(metrics.total_slow_poll_duration, metrics.total_slow_poll_count),
        ),
{
    let mut records: Vec<MetricRecord> = Vec::new();
    // lifespan
    records.push(record("instrumented_count", MetricUnit::Count,
        MetricValue::Count(metrics.instrumented_count), timestamp, dimensions));
    records.push(record("dropped_count", MetricUnit::Count,
        MetricValue::Count(metrics.dropped_count), timestamp, dimensions));
    // first polls
    records.push(record("first_poll_count", MetricUnit::Count,
        MetricValue::Count(metrics.first_poll_count), timestamp, dimensions));
    records.push(record("total_first_poll_delay", MetricUnit::Microseconds,
        MetricValue::Micros(metrics.total_first_poll_delay), timestamp, dimensions));
    records.push(record("mean_first_poll_delay", MetricUnit::Microseconds,
        MetricValue::Micros(metrics.mean_first_poll_delay()), timestamp, dimensions));
    // idles
    records.push(record("total_idled_count", MetricUnit::Count,
        MetricValue::Count(metrics.total_idled_count), timestamp, dimensions));
    records.push(record("total_idle_duration", MetricUnit::Microseconds,
        MetricValue::Micros(metrics.total_idle_duration), timestamp, dimensions));
    records.push(record("mean_idle_duration", MetricUnit::Microseconds,
        MetricValue::Micros(metrics.mean_idle_duration()), timestamp, dimensions));
    // schedules
    records.push(record("total_scheduled_count", MetricUnit::Count,
        MetricValue::Count(metrics.total_scheduled_count), timestamp, dimensions));
    records.push(record("total_scheduled_duration", MetricUnit::Microseconds,
        MetricValue::Micros(metrics.total_scheduled_duration), timestamp, dimensions));
    records.push(record("mean_scheduled_duration", MetricUnit::Microseconds,
        MetricValue::Micros(metrics.mean_scheduled_duration()), timestamp, dimensions));
    // polls
    records.push(record("total_poll_count", MetricUnit::Count,
        MetricValue::Count(metrics.total_poll_count), timestamp, dimensions));
    records.push(record("total_poll_duration", MetricUnit::Microseconds,
        MetricValue::Micros(metrics.total_poll_duration), timestamp, dimensions));
    records.push(record("mean_poll_duration", MetricUnit::Microseconds,
        MetricValue::Micros(metrics.mean_poll_duration()), timestamp, dimensions));
    let ratio = metrics.slow_poll_ratio_parts();
    records.push(record("slow_poll_ratio", MetricUnit::Percent,
        MetricValue::Ratio { numer: ratio.0, denom: ratio.1 }, timestamp, dimensions));
    // fast polls
    records.push(record("total_fast_poll_count", MetricUnit::Count,
        MetricValue::Count(metrics.total_fast_poll_count), timestamp, dimensions));
    records.push(record("total_fast_poll_duration", MetricUnit::Microseconds,
        MetricValue::Micros(metrics.total_fast_poll_duration), timestamp, dimensions));
    records.push(record("mean_fast_poll_duration", MetricUnit::Microseconds,
        MetricValue::Micros(metrics.mean_fast_poll_duration()), timestamp, dimensions));
    // slow polls
    records.push(record("total_slow_poll_count", MetricUnit::Count,
        MetricValue::Count(metrics.total_slow_poll_count), timestamp, dimensions));
    records.push(record("total_slow_poll_duration", MetricUnit::Microseconds,
        MetricValue::Micros(metrics.total_slow_poll_duration), timestamp, dimensions));
    records.push(record("mean_slow_poll_duration", MetricUnit::Microseconds,
        MetricValue::Micros(metrics.mean_slow_poll_duration()), timestamp, dimensions));
    Batch { namespace, records }
}

} // verus!
