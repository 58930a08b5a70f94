use natural_time::{split_duration, Duration, SplitDuration, TimePeriod};

#[test]
fn test_split_duration_year_correct() {
    let dur = Duration::days(365);
    assert_eq!(split_duration(dur).as_vec_u64(), vec![1, 0, 0, 0, 0, 0, 0, 0]);

    let dur = Duration::days(366);
    assert_eq!(split_duration(dur).as_vec_u64(), vec![1, 0, 0, 1, 0, 0, 0, 0]);
}

#[test]
fn test_split_duration_hour_correct() {
    let dur = Duration::hours(2);
    assert_eq!(split_duration(dur).as_vec_u64(), vec![0, 0, 0, 0, 2, 0, 0, 0]);

    let dur = Duration::hours(25);
    assert_eq!(split_duration(dur).as_vec_u64(), vec![0, 0, 0, 1, 1, 0, 0, 0]);
}

#[test]
fn test_split_duration_none_correct() {
    let dur = Duration::hours(0);
    assert_eq!(split_duration(dur).as_vec_u64(), vec![0, 0, 0, 0, 0, 0, 0, 0]);

    let dur = Duration::hours(25);
    assert_eq!(split_duration(dur).as_vec_u64(), vec![0, 0, 0, 1, 1, 0, 0, 0]);
}

fn weighted_total(s: &SplitDuration) -> u64 {
    s.years * 31_536_000_000
        + s.months * 2_592_000_000
        + s.weeks * 604_800_000
        + s.days * 86_400_000
        + s.hours * 3_600_000
        + s.minutes * 60_000
        + s.seconds * 1000
        + s.milliseconds
}

#[test]
fn split_weighted_sum_gives_back_the_magnitude() {
    for ms in [0i64, 1, 999, 1000, 86_399_999, 31_535_999_999, 31_536_000_001, 98_765_432_101] {
        assert_eq!(weighted_total(&split_duration(Duration::milliseconds(ms))), ms as u64);
    }
}

#[test]
fn split_of_every_unit() {
    let ms = 31_536_000_000i64 + 2 * 2_592_000_000 + 3 * 604_800_000 + 4 * 86_400_000
        + 5 * 3_600_000 + 6 * 60_000 + 7 * 1000 + 8;
    assert_eq!(
        split_duration(Duration::milliseconds(ms)).as_vec_u64(),
        vec![1, 2, 3, 4, 5, 6, 7, 8]
    );
}

#[test]
fn split_ignores_the_sign() {
    for ms in [1i64, 1234, 86_400_000 * 10 + 5, i64::MAX] {
        let d = Duration::milliseconds(ms);
        assert_eq!(split_duration(d), split_duration(d.negated()));
    }
}

#[test]
fn split_of_the_most_negative_interval() {
    let s = split_duration(Duration::milliseconds(i64::MIN));
    assert_eq!(weighted_total(&s), 1u64 << 63);
}

#[test]
fn split_months_can_reach_twelve() {
    // 364 days: 12 months of 30 days, then 4 days.
    let s = split_duration(Duration::days(364));
    assert_eq!(s.as_vec_u64(), vec![0, 12, 0, 4, 0, 0, 0, 0]);
}

#[test]
fn split_counts_stay_under_their_bounds() {
    let s = split_duration(Duration::milliseconds(31_535_999_999));
    assert_eq!(s.as_vec_u64(), vec![0, 12, 0, 4, 23, 59, 59, 999]);
    let s = split_duration(Duration::milliseconds(2_591_999_999));
    assert_eq!(s.as_vec_u64(), vec![0, 0, 4, 1, 23, 59, 59, 999]);
}

#[test]
fn split_duration_builds_from_parts() {
    let s = SplitDuration::new(1, 2, 3, 4, 5, 6, 7, 8);
    assert_eq!(s.as_vec_u64(), vec![1, 2, 3, 4, 5, 6, 7, 8]);
    assert_eq!(
        s.as_vec(),
        vec![
            TimePeriod::Year(1),
            TimePeriod::Month(2),
            TimePeriod::Week(3),
            TimePeriod::Day(4),
            TimePeriod::Hour(5),
            TimePeriod::Minute(6),
            TimePeriod::Second(7),
            TimePeriod::Millisecond(8),
        ]
    );
}

#[test]
fn duration_constructors() {
    assert_eq!(Duration::seconds(3).millis, 3000);
    assert_eq!(Duration::hours(-2).millis, -7_200_000);
    assert_eq!(Duration::days(1).plus(Duration::milliseconds(5)).millis, 86_400_005);
    assert_eq!(Duration::milliseconds(-5).abs_millis(), 5);
    assert_eq!(Duration::milliseconds(i64::MIN).abs_millis(), 1u64 << 63);
}
