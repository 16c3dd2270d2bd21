use mycoserver::timefmt::{format_elapsed, timestamp, to_elapsed, to_uptime, to_wdhms, Stamp, BACKWARDS};
use mycoserver::text::dec_string;

#[test]
fn uptime_of_one_day_one_hour_one_minute_one_second() {
    assert_eq!(to_wdhms(90061), "1 days 1 hours 1 mins 1 secs");
}

#[test]
fn uptime_with_weeks_and_gaps() {
    assert_eq!(to_wdhms(604800 + 5), "1 weeks 5 secs");
    assert_eq!(to_wdhms(0), "");
    assert_eq!(to_wdhms(3600), "1 hours");
}

#[test]
fn elapsed_buckets() {
    assert_eq!(format_elapsed(500), "500μs");
    assert_eq!(format_elapsed(2_500_000), "2s");
    assert_eq!(format_elapsed(3_000_000), "3s");
}

#[test]
fn elapsed_thresholds_are_strict() {
    assert_eq!(format_elapsed(999), "999μs");
    assert_eq!(format_elapsed(1000), "1ms");
    assert_eq!(format_elapsed(999_999), "999ms");
    assert_eq!(format_elapsed(1_000_000), "1s");
    assert_eq!(format_elapsed(0), "0μs");
}

#[test]
fn elapsed_between_instants() {
    let a = Stamp { secs: 100, nanos: 0 };
    let b = Stamp { secs: 100, nanos: 750_000 };
    assert_eq!(to_elapsed(a, b), "750μs");
    assert_eq!(to_elapsed(b, a), BACKWARDS);
    let c = Stamp { secs: 100 + 90061, nanos: 5 };
    assert_eq!(to_uptime(a, c), "1 days 1 hours 1 mins 1 secs");
    assert_eq!(to_uptime(c, a), BACKWARDS);
}

#[test]
fn timestamp_separates_date_and_time() {
    assert_eq!(timestamp(Stamp { secs: 0, nanos: 0 }), "1970-01-01 ~ 00:00:00.000");
    assert_eq!(
        timestamp(Stamp { secs: 1_518_568_087, nanos: 123_456_789 }),
        "2018-02-14 ~ 00:28:07.123"
    );
}

#[test]
fn decimal_rendering() {
    assert_eq!(dec_string(0), "0");
    assert_eq!(dec_string(7), "7");
    assert_eq!(dec_string(1234567890), "1234567890");
    assert_eq!(dec_string(u128::MAX), u128::MAX.to_string());
}
