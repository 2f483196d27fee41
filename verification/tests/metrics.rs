use awstgbot::metrics::{
    first_sum, flow_query, instance_names, FlowMetric, MetricStatistic, MetricUnit,
    METRIC_PERIOD_SECONDS,
};
use awstgbot::period::MonthPeriod;

#[test]
fn queries_chosen_metric() {
    let period = MonthPeriod { start: 10, end: 20 };
    let q = flow_query("Debian-2".to_string(), true, period);
    assert_eq!(q.instance_name, "Debian-2");
    assert_eq!(q.metric, FlowMetric::NetworkOut);
    assert_eq!(q.period_seconds, 2700000);
    assert_eq!(q.unit, MetricUnit::Bytes);
    assert_eq!(q.statistic, MetricStatistic::Sum);
    assert_eq!(METRIC_PERIOD_SECONDS, 2700000);
    assert_eq!((q.start, q.end), (10, 20));
    assert_eq!(flow_query("x".to_string(), false, period).metric, FlowMetric::NetworkIn);
}

#[test]
fn takes_first_sum() {
    assert_eq!(first_sum(vec![Some(3.5f64), Some(1.0)]).unwrap(), 3.5);
    assert_eq!(first_sum::<f64>(vec![None, Some(1.0)]).unwrap_err().to_string(), "sum is none");
}

#[test]
fn names_default_to_empty() {
    assert_eq!(
        instance_names(vec![Some("a".to_string()), None, Some("c".to_string())]),
        vec!["a", "", "c"]
    );
}
