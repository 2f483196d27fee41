use vstd::prelude::*;

use crate::error::StringError;
use crate::period::MonthPeriod;

verus! {

/// The network metric of an instance that a flow query asks for.
#[derive(Debug, Clone, Copy, PartialEq, Eq)]
pub enum FlowMetric {
    NetworkIn,
    NetworkOut,
}

/// The unit in which the metric is asked for.
#[derive(Debug, Clone, Copy, PartialEq, Eq)]
pub enum MetricUnit {
    Bytes,
}

/// The statistic of the data points asked for.
#[derive(Debug, Clone, Copy, PartialEq, Eq)]
pub enum MetricStatistic {
    Sum,
}

/// The length, in seconds, of each data point asked for: longer than any
/// month, so that one point covers the whole period.
pub const METRIC_PERIOD_SECONDS: i32 = 2700000;

/// A query for the sum, in bytes (`unit`, `statistic`), of one network metric of one instance over
/// a period.
#[derive(Debug, Clone)]
pub struct FlowQuery {
    pub instance_name: String,
    pub metric: FlowMetric,
    pub period_seconds: i32,
    pub unit: MetricUnit,
    pub statistic: MetricStatistic,
    pub start: i64,
    pub end: i64,
}

/// The query for the outgoing (`out`) or incoming traffic of an instance over
/// `period`.
pub fn flow_query(instance_name: String, out: bool, period: MonthPeriod) -> (q: FlowQuery)
    ensures
        q.instance_name == instance_name,
        q.metric == (if out { FlowMetric::NetworkOut } else { FlowMetric::NetworkIn }),
        q.period_seconds == METRIC_PERIOD_SECONDS,
        q.unit == MetricUnit::Bytes,
        q.statistic == MetricStatistic::Sum,
        q.start == period.start,
        q.end == period.end,
{
    let metric = if out {
        FlowMetric::NetworkOut
    } else {
        FlowMetric::NetworkIn
    };
    FlowQuery {
        instance_name,
        metric,
        period_seconds: METRIC_PERIOD_SECONDS,
        unit: MetricUnit::Bytes,
        statistic: MetricStatistic::Sum,
        start: period.start,
        end: period.end,
    }
}

/// The sum of the first data point of a metric's answer; it fails with
/// "sum is none" when that point carries no sum.
pub fn first_sum<T>(sums: Vec<Option<T>>) -> (r: Result<T, StringError>)
    requires
        sums.len() > 0,
    ensures
        match sums@[0] {
            Some(v) => r == Ok::<T, StringError>(v),
            None => r matches Err(e) && e@ == "sum is none"@,
        },
{
    let mut sums = sums;
    match sums.swap_remove(0) {
        Some(v) => Ok(v),
        None => Err(StringError::new("sum is none")),
    }
}

/// The names of the instances, with an empty name for an instance that has
/// none.
pub fn instance_names(names: Vec<Option<String>>) -> (r: Vec<String>)
    ensures
        r.len() == names.len(),
        forall|i: int|
            0 <= i < names.len() ==> (#[trigger] r@[i])@ == match names@[i] {
                Some(n) => n@,
                None => Seq::<char>::empty(),
            },
{
    let mut r: Vec<String> = Vec::new();
    for i in 0..names.len()
        invariant
            r.len() == i,
            forall|k: int|
                0 <= k < i ==> (#[trigger] r@[k])@ == match names@[k] {
                    Some(n) => n@,
                    None => Seq::<char>::empty(),
                },
    {
        let name = match &names[i] {
            Some(n) => n.clone(),
            None => String::new(),
        };
        r.push(name);
    }
    r
}

} // verus!
