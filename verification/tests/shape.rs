use tokio_metrics_cloudwatch::batch::build_batch;
use tokio_metrics_cloudwatch::metric::{Dimension, MetricUnit, MetricValue, Timestamp};
use tokio_metrics_cloudwatch::snapshot::MetricsSnapshot;
use tokio_metrics_cloudwatch::span::Span;

fn sample_snapshot() -> MetricsSnapshot {
    MetricsSnapshot {
        instrumented_count: 7,
        dropped_count: 2,
        first_poll_count: 4,
        total_first_poll_delay: Span::new(2, 0),
        total_idled_count: 5,
        total_idle_duration: Span::new(10, 500_000_000),
        total_scheduled_count: 3,
        total_scheduled_duration: Span::new(0, 900),
        total_poll_count: 8,
        total_poll_duration: Span::new(1, 0),
        total_fast_poll_count: 6,
        total_fast_poll_duration: Span::new(0, 600),
        total_slow_poll_count: 2,
        total_slow_poll_duration: Span::new(4, 0),
    }
}

#[test]
fn batch_has_the_fixed_names_and_units() {
    let b = build_batch(
        "my/namespace".to_string(),
        &None,
        &sample_snapshot(),
        Timestamp { secs: 1_700_000_000, nanos: 0 },
    );
    assert_eq!(b.namespace, "my/namespace");
    let expected: [(&str, MetricUnit); 21] = [
        ("instrumented_count", MetricUnit::Count),
        ("dropped_count", MetricUnit::Count),
        ("first_poll_count", MetricUnit::Count),
        ("total_first_poll_delay", MetricUnit::Microseconds),
        ("mean_first_poll_delay", MetricUnit::Microseconds),
        ("total_idled_count", MetricUnit::Count),
        ("total_idle_duration", MetricUnit::Microseconds),
        ("mean_idle_duration", MetricUnit::Microseconds),
        ("total_scheduled_count", MetricUnit::Count),
        ("total_scheduled_duration", MetricUnit::Microseconds),
        ("mean_scheduled_duration", MetricUnit::Microseconds),
        ("total_poll_count", MetricUnit::Count),
        ("total_poll_duration", MetricUnit::Microseconds),
        ("mean_poll_duration", MetricUnit::Microseconds),
        ("slow_poll_ratio", MetricUnit::Percent),
        ("total_fast_poll_count", MetricUnit::Count),
        ("total_fast_poll_duration", MetricUnit::Microseconds),
        ("mean_fast_poll_duration", MetricUnit::Microseconds),
        ("total_slow_poll_count", MetricUnit::Count),
        ("total_slow_poll_duration", MetricUnit::Microseconds),
        ("mean_slow_poll_duration", MetricUnit::Microseconds),
    ];
    assert_eq!(b.records.len(), expected.len());
    for (record, (name, unit)) in b.records.iter().zip(expected.iter()) {
        assert_eq!(record.name, *name);
        assert_eq!(record.unit, *unit);
    }
}

#[test]
fn batch_carries_the_snapshot_values() {
    let s = sample_snapshot();
    let b = build_batch("ns".to_string(), &None, &s, Timestamp { secs: 0, nanos: 0 });
    assert_eq!(b.records[0].value, MetricValue::Count(7));
    assert_eq!(b.records[1].value, MetricValue::Count(2));
    assert_eq!(b.records[2].value, MetricValue::Count(4));
    assert_eq!(b.records[3].value, MetricValue::Micros(Span::new(2, 0)));
    // 2 s over 4 first polls: a mean of half a second.
    assert_eq!(b.records[4].value, MetricValue::Micros(Span::new(0, 500_000_000)));
    assert_eq!(b.records[5].value, MetricValue::Count(5));
    assert_eq!(b.records[6].value, MetricValue::Micros(Span::new(10, 500_000_000)));
    // 10.5 s over 5 idles: 2.1 s each.
    assert_eq!(b.records[7].value, MetricValue::Micros(Span::new(2, 100_000_000)));
    assert_eq!(b.records[8].value, MetricValue::Count(3));
    assert_eq!(b.records[9].value, MetricValue::Micros(Span::new(0, 900)));
    // 900 ns over 3 schedules: 300 ns each.
    assert_eq!(b.records[10].value, MetricValue::Micros(Span::new(0, 300)));
    assert_eq!(b.records[11].value, MetricValue::Count(8));
    assert_eq!(b.records[12].value, MetricValue::Micros(Span::new(1, 0)));
    // 1 s over 8 polls: 125 ms each.
    assert_eq!(b.records[13].value, MetricValue::Micros(Span::new(0, 125_000_000)));
    // 2 slow polls of 8 polls, left undivided.
    assert_eq!(b.records[14].value, MetricValue::Ratio { numer: 2, denom: 8 });
    assert_eq!(b.records[15].value, MetricValue::Count(6));
    assert_eq!(b.records[16].value, MetricValue::Micros(Span::new(0, 600)));
    // 600 ns over 6 fast polls: 100 ns each.
    assert_eq!(b.records[17].value, MetricValue::Micros(Span::new(0, 100)));
    assert_eq!(b.records[18].value, MetricValue::Count(2));
    assert_eq!(b.records[19].value, MetricValue::Micros(Span::new(4, 0)));
    // 4 s over 2 slow polls: 2 s each.
    assert_eq!(b.records[20].value, MetricValue::Micros(Span::new(2, 0)));
}

#[test]
fn every_record_shares_the_timestamp_and_dimensions() {
    let dims = Some(vec![
        Dimension { name: "service".to_string(), value: "api".to_string() },
        Dimension { name: "stage".to_string(), value: "prod".to_string() },
    ]);
    let ts = Timestamp { secs: 1_700_000_123, nanos: 456_000_000 };
    let b = build_batch("ns".to_string(), &dims, &sample_snapshot(), ts);
    assert_eq!(b.records.len(), 21);
    for record in &b.records {
        assert_eq!(record.timestamp, ts);
        let record_dims = record.dimensions.as_ref().expect("dimensions must be kept");
        assert_eq!(record_dims.len(), 2);
        assert_eq!(record_dims[0].name, "service");
        assert_eq!(record_dims[0].value, "api");
        assert_eq!(record_dims[1].name, "stage");
        assert_eq!(record_dims[1].value, "prod");
    }
}

#[test]
fn absent_dimensions_stay_absent_on_every_record() {
    let b = build_batch(
        "ns".to_string(),
        &None,
        &sample_snapshot(),
        Timestamp { secs: 1, nanos: 2 },
    );
    for record in &b.records {
        assert!(record.dimensions.is_none());
        assert_eq!(record.timestamp, Timestamp { secs: 1, nanos: 2 });
    }
}
