use natural_time::pretty::decimal_string;
use natural_time::{pretty_full, pretty_short, render_full, render_short, Duration, SplitDuration, TimePeriod};

#[test]
fn period_names_and_plurals() {
    assert_eq!(TimePeriod::Week(1).to_string(), "1 week");
    assert_eq!(TimePeriod::Month(0).to_string(), "0 months");
    assert_eq!(TimePeriod::Millisecond(250).to_string(), "250 milliseconds");
    assert_eq!(TimePeriod::Year(2).str_name(), "year");
    assert_eq!(TimePeriod::Minute(7).val(), 7);
    assert!(TimePeriod::Hour(0).is_plural());
    assert!(!TimePeriod::Hour(1).is_plural());
    assert_eq!(TimePeriod::Second(1).plural_str(), "");
    assert_eq!(TimePeriod::Second(3).plural_str(), "s");
}

#[test]
fn decimal_numerals() {
    assert_eq!(decimal_string(0), "0");
    assert_eq!(decimal_string(7), "7");
    assert_eq!(decimal_string(10), "10");
    assert_eq!(decimal_string(1_234_567_890), "1234567890");
    assert_eq!(decimal_string(u64::MAX), "18446744073709551615");
}

#[test]
fn full_form_of_zero() {
    assert_eq!(
        pretty_full(Duration::milliseconds(0)),
        "0 years, 0 months, 0 weeks, 0 days, 0 hours, 0 minutes, 0 seconds, 0 milliseconds"
    );
}

#[test]
fn full_form_of_mixed_units() {
    let ms = 31_536_000_000i64 + 2 * 2_592_000_000 + 604_800_000 + 3 * 86_400_000 + 1000 + 1;
    assert_eq!(
        pretty_full(Duration::milliseconds(-ms)),
        "1 year, 2 months, 1 week, 3 days, 0 hours, 0 minutes, 1 second, 1 millisecond"
    );
}

#[test]
fn full_form_has_seven_commas() {
    for ms in [0i64, 1, 61_001, 1_000_000_000_000, -42] {
        let text = pretty_full(Duration::milliseconds(ms));
        assert_eq!(text.matches(',').count(), 7);
    }
    let text = render_full(&SplitDuration::new(1, 1, 1, 1, 1, 1, 1, 1));
    assert_eq!(text.matches(',').count(), 7);
}

#[test]
fn short_form_of_zero() {
    assert_eq!(pretty_short(Duration::milliseconds(0)), "0 milliseconds");
}

#[test]
fn short_form_of_one_millisecond() {
    assert_eq!(pretty_short(Duration::milliseconds(1)), "1 millisecond");
}

#[test]
fn short_form_of_a_second_and_milliseconds() {
    let d = Duration::seconds(1).plus(Duration::milliseconds(200));
    assert_eq!(pretty_short(d), "1 second and 200 milliseconds");
}

#[test]
fn short_form_of_a_day_and_hours() {
    let d = Duration::days(1).plus(Duration::hours(2));
    assert_eq!(pretty_short(d), "1 day and 2 hours");
}

#[test]
fn short_form_keeps_the_next_slot_even_at_zero() {
    let d = Duration::days(1).plus(Duration::seconds(2));
    assert_eq!(pretty_short(d), "1 day and 0 hours");
}

#[test]
fn short_form_of_years() {
    let d = Duration::days(800);
    assert_eq!(pretty_short(d), "2 years and 2 months");
    assert_eq!(render_short(&SplitDuration::new(0, 0, 0, 0, 0, 0, 0, 0)), "0 milliseconds");
    assert_eq!(render_short(&SplitDuration::new(0, 0, 0, 0, 0, 3, 1, 0)), "3 minutes and 1 second");
}
