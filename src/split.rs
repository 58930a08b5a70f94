//! Decomposition of an interval into years, months, weeks, days, hours,
//! minutes, seconds and milliseconds, with fixed day counts for years and
//! months.
use vstd::arithmetic::div_mod::lemma_fundamental_div_mod;
use vstd::prelude::*;

verus! {

/// Milliseconds in a second.
pub const SECOND_MS: u64 = 1000;

/// Milliseconds in a minute.
pub const MINUTE_MS: u64 = 60_000;

/// Milliseconds in an hour.
pub const HOUR_MS: u64 = 3_600_000;

/// Milliseconds in a day.
pub const DAY_MS: u64 = 86_400_000;

/// Milliseconds in a week (7 days).
pub const WEEK_MS: u64 = 604_800_000;

/// Milliseconds in a month, taken as 30 days.
pub const MONTH_MS: u64 = 2_592_000_000;

/// Milliseconds in a year, taken as 365 days.
pub const YEAR_MS: u64 = 31_536_000_000;

/// A signed interval of time, counted in whole milliseconds.
#[derive(Clone, Copy, Debug, PartialEq, Eq, Structural)]
pub struct Duration {
    pub millis: i64,
}

impl Duration {
    /// The magnitude of the interval, in milliseconds.
    pub open spec fn magnitude(self) -> nat {
        if self.millis < 0 {
            (-self.millis) as nat
        } else {
            self.millis as nat
        }
    }

    pub fn milliseconds(millis: i64) -> (r: Duration)
        ensures
            r.millis == millis,
    {
        Duration { millis }
    }

    pub fn seconds(secs: i64) -> (r: Duration)
        requires
            i64::MIN <= secs * 1000 <= i64::MAX,
        ensures
            r.millis == secs * 1000,
    {
        Duration { millis: secs * 1000 }
    }

    pub fn hours(hours: i64) -> (r: Duration)
        requires
            i64::MIN <= hours * 3_600_000 <= i64::MAX,
        ensures
            r.millis == hours * 3_600_000,
    {
        Duration { millis: hours * 3_600_000 }
    }

    pub fn days(days: i64) -> (r: Duration)
        requires
            i64::MIN <= days * 86_400_000 <= i64::MAX,
        ensures
            r.millis == days * 86_400_000,
    {
        Duration { millis: days * 86_400_000 }
    }

    /// The sum of two intervals.
    pub fn plus(self, other: Duration) -> (r: Duration)
        requires
            i64::MIN <= self.millis + other.millis <= i64::MAX,
        ensures
            r.millis == self.millis + other.millis,
    {
        Duration { millis: self.millis + other.millis }
    }

    /// The same interval with the opposite sign.
    pub fn negated(self) -> (r: Duration)
        requires
            self.millis != i64::MIN,
        ensures
            r.millis == -self.millis,
    {
        Duration { millis: -self.millis }
    }

    /// The magnitude of the interval, which always fits in a `u64`.
    pub fn abs_millis(self) -> (r: u64)
        ensures
            r as nat == self.magnitude(),
    {
        if self.millis >= 0 {
            self.millis as u64
        } else {
            ((-(self.millis + 1)) as u64) + 1
        }
    }
}

/// One slot of a breakdown: a unit and how many of it.
#[derive(Clone, Copy, Debug, PartialEq, Eq, Structural)]
pub enum TimePeriod {
    Year(u64),
    Month(u64),
    Week(u64),
    Day(u64),
    Hour(u64),
    Minute(u64),
    Second(u64),
    Millisecond(u64),
}

impl TimePeriod {
    /// How many units this slot holds.
    pub open spec fn count(self) -> u64 {
        match self {
            TimePeriod::Year(v) => v,
            TimePeriod::Month(v) => v,
            TimePeriod::Week(v) => v,
            TimePeriod::Day(v) => v,
            TimePeriod::Hour(v) => v,
            TimePeriod::Minute(v) => v,
            TimePeriod::Second(v) => v,
            TimePeriod::Millisecond(v) => v,
        }
    }

    pub fn val(&self) -> (r: u64)
        ensures
            r == self.count(),
    {
        match *self {
            TimePeriod::Year(v) => v,
            TimePeriod::Month(v) => v,
            TimePeriod::Week(v) => v,
            TimePeriod::Day(v) => v,
            TimePeriod::Hour(v) => v,
            TimePeriod::Minute(v) => v,
            TimePeriod::Second(v) => v,
            TimePeriod::Millisecond(v) => v,
        }
    }

    /// Whether the unit's name takes a plural "s": every count but one does.
    pub fn is_plural(&self) -> (r: bool)
        ensures
            r == (self.count() != 1),
    {
        self.val() != 1
    }
}

/// The eight counts of a breakdown, from years down to milliseconds.
#[derive(Clone, Copy, Debug, PartialEq, Eq, Structural)]
pub struct SplitDuration {
    pub years: u64,
    pub months: u64,
    pub weeks: u64,
    pub days: u64,
    pub hours: u64,
    pub minutes: u64,
    pub seconds: u64,
    pub milliseconds: u64,
}

impl SplitDuration {
    /// The slots in order, coarsest first.
    pub open spec fn periods(self) -> Seq<TimePeriod> {
        seq![
            TimePeriod::Year(self.years),
            TimePeriod::Month(self.months),
            TimePeriod::Week(self.weeks),
            TimePeriod::Day(self.days),
            TimePeriod::Hour(self.hours),
            TimePeriod::Minute(self.minutes),
            TimePeriod::Second(self.seconds),
            TimePeriod::Millisecond(self.milliseconds),
        ]
    }

    /// The counts in order, coarsest first.
    pub open spec fn counts(self) -> Seq<u64> {
        seq![
            self.years,
            self.months,
            self.weeks,
            self.days,
            self.hours,
            self.minutes,
            self.seconds,
            self.milliseconds,
        ]
    }

    /// The number of milliseconds the breakdown stands for, each count
    /// weighted by its unit.
    pub open spec fn total_ms(self) -> int {
        YEAR_MS * self.years + MONTH_MS * self.months + WEEK_MS * self.weeks + DAY_MS * self.days
            + HOUR_MS * self.hours + MINUTE_MS * self.minutes + SECOND_MS * self.seconds
            + self.milliseconds
    }

    pub fn new(
        years: u64,
        months: u64,
        weeks: u64,
        days: u64,
        hours: u64,
        minutes: u64,
        seconds: u64,
        milliseconds: u64,
    ) -> (r: SplitDuration)
        ensures
            r.counts() == seq![years, months, weeks, days, hours, minutes, seconds, milliseconds],
    {
        SplitDuration { years, months, weeks, days, hours, minutes, seconds, milliseconds }
    }

    pub fn as_vec(&self) -> (r: Vec<TimePeriod>)
        ensures
            r@ == self.periods(),
    {
        let r = vec![
            TimePeriod::Year(self.years),
            TimePeriod::Month(self.months),
            TimePeriod::Week(self.weeks),
            TimePeriod::Day(self.days),
            TimePeriod::Hour(self.hours),
            TimePeriod::Minute(self.minutes),
            TimePeriod::Second(self.seconds),
            TimePeriod::Millisecond(self.milliseconds),
        ];
        assert(r@ =~= self.periods());
        r
    }

    pub fn as_vec_u64(&self) -> (r: Vec<u64>)
        ensures
            r@ == self.counts(),
    {
        let r = vec![
            self.years,
            self.months,
            self.weeks,
            self.days,
            self.hours,
            self.minutes,
            self.seconds,
            self.milliseconds,
        ];
        assert(r@ =~= self.counts());
        r
    }
}

/// The greedy breakdown of `m` milliseconds: each unit, coarsest first,
/// takes as many whole units as fit in what the coarser ones left.
pub open spec fn split_of(m: nat) -> SplitDuration {
    let r_year = m % (YEAR_MS as nat);
    let r_month = r_year % (MONTH_MS as nat);
    let r_week = r_month % (WEEK_MS as nat);
    let r_day = r_week % (DAY_MS as nat);
    let r_hour = r_day % (HOUR_MS as nat);
    let r_minute = r_hour % (MINUTE_MS as nat);
    SplitDuration {
        years: (m / (YEAR_MS as nat)) as u64,
        months: (r_year / (MONTH_MS as nat)) as u64,
        weeks: (r_month / (WEEK_MS as nat)) as u64,
        days: (r_week / (DAY_MS as nat)) as u64,
        hours: (r_day / (HOUR_MS as nat)) as u64,
        minutes: (r_hour / (MINUTE_MS as nat)) as u64,
        seconds: (r_minute / (SECOND_MS as nat)) as u64,
        milliseconds: (r_minute % (SECOND_MS as nat)) as u64,
    }
}

/// Breaks the magnitude of `dur` into years (365 days), months (30 days),
/// weeks, days, hours, minutes, seconds and milliseconds; the sign of `dur`
/// plays no part.
pub fn split_duration(dur: Duration) -> (r: SplitDuration)
    ensures
        r == split_of(dur.magnitude()),
{
    let remaining = dur.abs_millis();

    let years = remaining / YEAR_MS;
    let remaining = remaining % YEAR_MS;

    let months = remaining / MONTH_MS;
    let remaining = remaining % MONTH_MS;

    let weeks = remaining / WEEK_MS;
    let remaining = remaining % WEEK_MS;

    let days = remaining / DAY_MS;
    let remaining = remaining % DAY_MS;

    let hours = remaining / HOUR_MS;
    let remaining = remaining % HOUR_MS;

    let minutes = remaining / MINUTE_MS;
    let remaining = remaining % MINUTE_MS;

    let seconds = remaining / SECOND_MS;
    let milliseconds = remaining % SECOND_MS;

    SplitDuration::new(years, months, weeks, days, hours, minutes, seconds, milliseconds)
}

/// Each step of the greedy breakdown of `m`: the quotient times the unit,
/// plus the remainder, gives back what the step started from, and the
/// remainder lies under the unit.
proof fn lemma_split_steps(m: nat)
    ensures
        ({
            let m = m as int;
            let r_year = m % (YEAR_MS as int);
            let r_month = r_year % (MONTH_MS as int);
            let r_week = r_month % (WEEK_MS as int);
            let r_day = r_week % (DAY_MS as int);
            let r_hour = r_day % (HOUR_MS as int);
            let r_minute = r_hour % (MINUTE_MS as int);
            &&& m == YEAR_MS * (m / (YEAR_MS as int)) + r_year
            &&& r_year == MONTH_MS * (r_year / (MONTH_MS as int)) + r_month
            &&& r_month == WEEK_MS * (r_month / (WEEK_MS as int)) + r_week
            &&& r_week == DAY_MS * (r_week / (DAY_MS as int)) + r_day
            &&& r_day == HOUR_MS * (r_day / (HOUR_MS as int)) + r_hour
            &&& r_hour == MINUTE_MS * (r_hour / (MINUTE_MS as int)) + r_minute
            &&& r_minute == SECOND_MS * (r_minute / (SECOND_MS as int)) + r_minute % (
            SECOND_MS as int)
            &&& 0 <= r_year < YEAR_MS
            &&& 0 <= r_month < MONTH_MS
            &&& 0 <= r_week < WEEK_MS
            &&& 0 <= r_day < DAY_MS
            &&& 0 <= r_hour < HOUR_MS
            &&& 0 <= r_minute < MINUTE_MS
            &&& 0 <= r_minute % (SECOND_MS as int) < SECOND_MS
        }),
{
    let m = m as int;
    let r_year = m % (YEAR_MS as int);
    let r_month = r_year % (MONTH_MS as int);
    let r_week = r_month % (WEEK_MS as int);
    let r_day = r_week % (DAY_MS as int);
    let r_hour = r_day % (HOUR_MS as int);
    let r_minute = r_hour % (MINUTE_MS as int);
    lemma_fundamental_div_mod(m, YEAR_MS as int);
    lemma_fundamental_div_mod(r_year, MONTH_MS as int);
    lemma_fundamental_div_mod(r_month, WEEK_MS as int);
    lemma_fundamental_div_mod(r_week, DAY_MS as int);
    lemma_fundamental_div_mod(r_day, HOUR_MS as int);
    lemma_fundamental_div_mod(r_hour, MINUTE_MS as int);
    lemma_fundamental_div_mod(r_minute, SECOND_MS as int);
}

/// The weighted sum of a breakdown's counts gives back the magnitude of the
/// interval it was made from.
pub proof fn lemma_split_total(dur: Duration)
    ensures
        split_of(dur.magnitude()).total_ms() == dur.magnitude(),
{
    lemma_split_steps(dur.magnitude());
}

/// An interval and its negation break down alike.
pub proof fn lemma_split_sign_insensitive(a: Duration, b: Duration)
    requires
        a.millis == -b.millis,
    ensures
        split_of(a.magnitude()) == split_of(b.magnitude()),
{
}

/// Every count below months stays under the number of its units that make
/// one of the next coarser unit; months reach 12 at most, since a year of
/// 365 days holds twelve months of 30 days and 5 days more, and weeks reach
/// 4 at most, since a month of 30 days holds four weeks and 2 days more.
/// Years have no bound.
pub proof fn lemma_split_bounds(dur: Duration)
    ensures
        split_of(dur.magnitude()).months <= 12,
        split_of(dur.magnitude()).weeks <= 4,
        split_of(dur.magnitude()).days < 7,
        split_of(dur.magnitude()).hours < 24,
        split_of(dur.magnitude()).minutes < 60,
        split_of(dur.magnitude()).seconds < 60,
        split_of(dur.magnitude()).milliseconds < 1000,
{
    lemma_split_steps(dur.magnitude());
}

} // verus!
