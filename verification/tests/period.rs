use awstgbot::period::{current_month_period, month_period, MonthPeriod};

#[test]
fn test_date() {
    let current = current_month_period();
    let period = current.period.unwrap();
    println!("{},{}", period.start, period.end);
    assert!(period.start < period.end);
    assert!(1 <= current.month && current.month <= 12);
    assert_eq!(month_period(current.year, current.month).unwrap(), period);
}

#[test]
fn january_2024_runs_to_february() {
    assert_eq!(
        month_period(2024, 1).unwrap(),
        MonthPeriod { start: 1704067200, end: 1706745600 }
    );
}

#[test]
fn leap_february_has_29_days() {
    let p = month_period(2024, 2).unwrap();
    assert_eq!(p.start, 1706745600);
    assert_eq!(p.end, 1709251200);
    assert_eq!(p.end - p.start, 29 * 86400);
    let q = month_period(2023, 2).unwrap();
    assert_eq!(q.end - q.start, 28 * 86400);
}

#[test]
fn december_ends_in_next_year() {
    assert_eq!(
        month_period(2023, 12).unwrap(),
        MonthPeriod { start: 1701388800, end: 1704067200 }
    );
}

#[test]
fn months_before_the_epoch_are_negative() {
    assert_eq!(month_period(1969, 12).unwrap(), MonthPeriod { start: -2678400, end: 0 });
}

#[test]
fn consecutive_periods_meet() {
    for month in 1..12 {
        let a = month_period(2025, month).unwrap();
        let b = month_period(2025, month + 1).unwrap();
        assert_eq!(a.end, b.start);
    }
    assert_eq!(month_period(2025, 12).unwrap().end, month_period(2026, 1).unwrap().start);
}

#[test]
fn invalid_month_has_no_start() {
    assert_eq!(month_period(2024, 13).unwrap_err().to_string(), "none NaiveDate");
    assert_eq!(month_period(2024, 0).unwrap_err().to_string(), "none NaiveDate");
}

#[test]
fn years_out_of_range() {
    assert_eq!(month_period(262143, 1).unwrap_err().to_string(), "none NaiveDate");
    assert_eq!(month_period(262142, 12).unwrap_err().to_string(), "None EndDate");
    assert!(month_period(262142, 11).is_ok());
    assert_eq!(month_period(i32::MAX, 12).unwrap_err().to_string(), "none NaiveDate");
    assert_eq!(month_period(-262144, 1).unwrap_err().to_string(), "none NaiveDate");
    assert!(month_period(-262143, 1).is_ok());
}
