use physics::MetricsContext;

#[test]
fn report_carries_totals_and_truncated_average() {
    let mut metrics = MetricsContext::new();
    metrics.record_step(10);
    metrics.record_step(20);
    let (calls, time, avg) = metrics.get_performance_metrics();
    assert_eq!(calls, 2);
    assert_eq!(time, 30);
    // 30 / 2 = 15 time units per call, reported in thousandths: 15000.
    assert_eq!(avg, 15000);
}

#[test]
fn average_truncates_toward_zero() {
    let mut metrics = MetricsContext::new();
    metrics.record_step(1);
    metrics.record_step(0);
    metrics.record_step(0);
    let (calls, time, avg) = metrics.get_performance_metrics();
    assert_eq!(calls, 3);
    assert_eq!(time, 1);
    assert_eq!(avg, 333);
}

#[test]
fn read_is_destructive_and_second_read_reports_zeros() {
    let mut metrics = MetricsContext::new();
    metrics.record_step(42);
    let first = metrics.get_performance_metrics();
    assert_eq!(first.0, 1);
    let second = metrics.get_performance_metrics();
    assert_eq!(second, (0, 0, 0));
}

#[test]
fn fresh_context_reports_zeros() {
    let mut metrics = MetricsContext::new();
    assert_eq!(metrics.get_performance_metrics(), (0, 0, 0));
}

#[test]
fn counters_saturate_instead_of_wrapping() {
    let mut metrics = MetricsContext::new();
    metrics.record_step(u64::MAX);
    metrics.record_step(u64::MAX);
    let (calls, time, avg) = metrics.get_performance_metrics();
    assert_eq!(calls, 2);
    assert_eq!(time, u64::MAX);
    // MAX * 1000 / 2 does not fit a counter, so the average pins at MAX.
    assert_eq!(avg, u64::MAX);
}
