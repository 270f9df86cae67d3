use hyperliquid_trading_bot::time::Timestamp;

#[test]
fn seconds_until_rounds_toward_zero() {
    let a = Timestamp::new(100, 900_000_000);
    let b = Timestamp::new(102, 100_000_000);
    assert_eq!(a.seconds_until(&b), 1);
    assert_eq!(b.seconds_until(&a), -1);
    assert_eq!(a.seconds_until(&a), 0);
    let c = Timestamp::new(103, 900_000_000);
    assert_eq!(a.seconds_until(&c), 3);
}

#[test]
fn hours_until_counts_whole_hours() {
    let start = Timestamp::new(1_700_000_000, 0);
    let almost = Timestamp::new(1_700_000_000 + 3599, 999_999_999);
    let exactly = Timestamp::new(1_700_000_000 + 3600, 0);
    let day = Timestamp::new(1_700_000_000 + 86_400, 0);
    assert_eq!(start.hours_until(&almost), 0);
    assert_eq!(start.hours_until(&exactly), 1);
    assert_eq!(start.hours_until(&day), 24);
    assert_eq!(exactly.hours_until(&start), -1);
    assert_eq!(almost.hours_until(&start), 0);
}

#[test]
fn hours_until_over_the_whole_range() {
    let first = Timestamp::new(i64::MIN, 0);
    let last = Timestamp::new(i64::MAX, 999_999_999);
    let span = (i64::MAX as i128) - (i64::MIN as i128);
    assert_eq!(first.seconds_until(&last), span);
    assert_eq!(first.hours_until(&last), span / 3600);
    assert_eq!(last.hours_until(&first), -(span / 3600));
}

#[test]
fn utc_day_is_the_floor_of_the_days() {
    assert_eq!(Timestamp::new(0, 0).utc_day(), 0);
    assert_eq!(Timestamp::new(86_399, 999_999_999).utc_day(), 0);
    assert_eq!(Timestamp::new(86_400, 0).utc_day(), 1);
    assert_eq!(Timestamp::new(-1, 0).utc_day(), -1);
    assert_eq!(Timestamp::new(-86_400, 0).utc_day(), -1);
    assert_eq!(Timestamp::new(-86_401, 0).utc_day(), -2);
    assert_eq!(Timestamp::new(1_700_000_000, 0).utc_day(), 19_675);
    assert_eq!(Timestamp::new(i64::MIN, 0).utc_day(), i64::MIN.div_euclid(86_400));
    assert_eq!(Timestamp::new(i64::MAX, 0).utc_day(), i64::MAX / 86_400);
}

#[test]
fn utc_day_agrees_with_the_calendar() {
    let ts = Timestamp::new(1_700_000_000, 0);
    let date = chrono::DateTime::<chrono::Utc>::from_timestamp(ts.secs, ts.nanos).unwrap();
    let epoch = chrono::NaiveDate::from_ymd_opt(1970, 1, 1).unwrap();
    let days = (date.date_naive() - epoch).num_days();
    assert_eq!(ts.utc_day(), days);
}

#[test]
fn hours_until_agrees_with_the_calendar() {
    let a = chrono::DateTime::<chrono::Utc>::from_timestamp(1_700_000_000, 750_000_000).unwrap();
    let b = chrono::DateTime::<chrono::Utc>::from_timestamp(1_700_010_799, 250_000_000).unwrap();
    let ta = Timestamp::new(a.timestamp(), a.timestamp_subsec_nanos());
    let tb = Timestamp::new(b.timestamp(), b.timestamp_subsec_nanos());
    assert_eq!(ta.hours_until(&tb), (b - a).num_hours() as i128);
    assert_eq!(tb.hours_until(&ta), (a - b).num_hours() as i128);
    assert_eq!(ta.seconds_until(&tb), (b - a).num_seconds() as i128);
    assert_eq!(tb.seconds_until(&ta), (a - b).num_seconds() as i128);
}
