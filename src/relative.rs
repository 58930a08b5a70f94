//! Relative phrases such as "3 days ago" or "in 2 hours", from a reference
//! point in time and the present.
use vstd::prelude::*;
use vstd::string::*;

use crate::pretty::{render_short, short_text};
use crate::split::{split_duration, split_of, Duration};

verus! {

/// The largest number of seconds, either side of 1970-01-01 00:00:00 UTC,
/// that a `Timestamp` holds: over six million years, so that the
/// milliseconds between any two timestamps fit in an `i64`.
pub const MAX_TIMESTAMP_SECS: i64 = 200_000_000_000_000;

/// Nanoseconds in a second.
pub const SECOND_NS: u32 = 1_000_000_000;

/// A point in time: whole seconds since 1970-01-01 00:00:00 UTC and the
/// nanoseconds past that second.
#[derive(Clone, Copy, Debug, PartialEq, Eq, Structural)]
pub struct Timestamp {
    pub secs: i64,
    pub subsec_nanos: u32,
}

impl Timestamp {
    pub open spec fn wf(self) -> bool {
        &&& -MAX_TIMESTAMP_SECS <= self.secs <= MAX_TIMESTAMP_SECS
        &&& self.subsec_nanos < SECOND_NS
    }

    /// Nanoseconds since 1970-01-01 00:00:00 UTC.
    pub open spec fn nanos(self) -> int {
        self.secs * SECOND_NS + self.subsec_nanos
    }

    /// The timestamp of `secs` seconds and `subsec_nanos` nanoseconds after
    /// the epoch; `None` where the seconds lie beyond `MAX_TIMESTAMP_SECS`
    /// either way or the nanoseconds make a whole second.
    pub fn new(secs: i64, subsec_nanos: u32) -> (r: Option<Timestamp>)
        ensures
            r is Some <==> (-MAX_TIMESTAMP_SECS <= secs <= MAX_TIMESTAMP_SECS && subsec_nanos
                < SECOND_NS),
            r matches Some(t) ==> t.wf() && t.secs == secs && t.subsec_nanos == subsec_nanos,
    {
        if -MAX_TIMESTAMP_SECS <= secs && secs <= MAX_TIMESTAMP_SECS && subsec_nanos < SECOND_NS {
            Some(Timestamp { secs, subsec_nanos })
        } else {
            None
        }
    }
}

/// Nanoseconds from `reference` to `now`: positive where `reference` is
/// the earlier.
pub open spec fn elapsed_ns(reference: Timestamp, now: Timestamp) -> int {
    now.nanos() - reference.nanos()
}

/// `ns` nanoseconds in whole milliseconds, rounded toward zero.
pub open spec fn toward_zero_ms(ns: int) -> int {
    if ns >= 0 {
        ns / 1_000_000
    } else {
        -((-ns) / 1_000_000)
    }
}

/// Whole milliseconds from `reference` to `now`, rounded toward zero.
pub open spec fn elapsed_ms(reference: Timestamp, now: Timestamp) -> int {
    toward_zero_ms(elapsed_ns(reference, now))
}

/// The short form of the interval from `reference` to `now`, led by "in "
/// where `reference` lies ahead of `now` and followed by " ago" otherwise.
pub open spec fn relative_text(reference: Timestamp, now: Timestamp) -> Seq<char> {
    let ms = elapsed_ms(reference, now);
    let words = short_text(split_of(if ms < 0 { (-ms) as nat } else { ms as nat }));
    if elapsed_ns(reference, now) < 0 {
        seq!['i', 'n', ' '] + words
    } else {
        words + seq![' ', 'a', 'g', 'o']
    }
}

/// Nanoseconds from `reference` to `now`.
fn elapsed_nanos(reference: &Timestamp, now: &Timestamp) -> (r: i128)
    requires
        reference.wf(),
        now.wf(),
    ensures
        r == elapsed_ns(*reference, *now),
{
    let secs = now.secs as i128 - reference.secs as i128;
    assert(-400_000_000_000_000 <= secs <= 400_000_000_000_000);
    assert(-400_000_000_000_000_000_000_000 <= secs * 1_000_000_000
        <= 400_000_000_000_000_000_000_000) by (nonlinear_arith)
        requires
            -400_000_000_000_000 <= secs <= 400_000_000_000_000,
    ;
    secs * 1_000_000_000 + (now.subsec_nanos as i128 - reference.subsec_nanos as i128)
}

/// The interval from `reference` to `now`, in whole milliseconds rounded
/// toward zero: positive where `reference` is the earlier.
pub fn elapsed(reference: &Timestamp, now: &Timestamp) -> (r: Duration)
    requires
        reference.wf(),
        now.wf(),
    ensures
        r.millis == elapsed_ms(*reference, *now),
{
    let ns = elapsed_nanos(reference, now);
    assert(-400_000_001_000_000_000_000_000 <= ns <= 400_000_001_000_000_000_000_000) by (
    nonlinear_arith)
        requires
            ns == (now.secs - reference.secs) * 1_000_000_000 + (now.subsec_nanos
                - reference.subsec_nanos),
            -400_000_000_000_000 <= now.secs - reference.secs <= 400_000_000_000_000,
            0 <= now.subsec_nanos < 1_000_000_000,
            0 <= reference.subsec_nanos < 1_000_000_000,
    ;
    let millis = if ns >= 0 {
        ns / 1_000_000
    } else {
        -((-ns) / 1_000_000)
    };
    Duration { millis: millis as i64 }
}

/// The relative phrase for `reference` seen from `now`: "1 week and 3 days
/// ago" for a point ten days back, "in 2 hours" for one two hours ahead.
pub fn relative_time(reference: &Timestamp, now: &Timestamp) -> (r: String)
    requires
        reference.wf(),
        now.wf(),
    ensures
        r@ == relative_text(*reference, *now),
{
    let ns = elapsed_nanos(reference, now);
    let words = render_short(&split_duration(elapsed(reference, now)));
    if ns < 0 {
        let lead = "in ";
        proof {
            reveal_strlit("in ");
        }
        assert(lead@ =~= seq!['i', 'n', ' ']);
        String::from_str(lead).concat(words.as_str())
    } else {
        let tail = " ago";
        proof {
            reveal_strlit(" ago");
        }
        assert(tail@ =~= seq![' ', 'a', 'g', 'o']);
        words.concat(tail)
    }
}

} // verus!
