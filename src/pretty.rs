//! Text for breakdowns: each slot as "<count> <unit>[s]", the full form
//! with all eight slots, and the short form with the leading slot and the
//! one after it.
use vstd::prelude::*;
use vstd::string::*;

use crate::split::{split_duration, split_of, Duration, SplitDuration, TimePeriod};

verus! {

/// The ten decimal digits, in order.
pub open spec fn digits() -> Seq<char> {
    seq!['0', '1', '2', '3', '4', '5', '6', '7', '8', '9']
}

/// The decimal numeral of `n`, without leading zeros.
pub open spec fn decimal(n: nat) -> Seq<char>
    decreases n,
{
    if n < 10 {
        seq![digits()[n as int]]
    } else {
        decimal(n / 10) + seq![digits()[(n % 10) as int]]
    }
}

/// The singular name of the unit of `p`.
pub open spec fn unit_name(p: TimePeriod) -> Seq<char> {
    match p {
        TimePeriod::Year(_) => seq!['y', 'e', 'a', 'r'],
        TimePeriod::Month(_) => seq!['m', 'o', 'n', 't', 'h'],
        TimePeriod::Week(_) => seq!['w', 'e', 'e', 'k'],
        TimePeriod::Day(_) => seq!['d', 'a', 'y'],
        TimePeriod::Hour(_) => seq!['h', 'o', 'u', 'r'],
        TimePeriod::Minute(_) => seq!['m', 'i', 'n', 'u', 't', 'e'],
        TimePeriod::Second(_) => seq!['s', 'e', 'c', 'o', 'n', 'd'],
        TimePeriod::Millisecond(_) => seq![
            'm', 'i', 'l', 'l', 'i', 's', 'e', 'c', 'o', 'n', 'd',
        ],
    }
}

/// "s" for every count but one, else nothing.
pub open spec fn plural_suffix(p: TimePeriod) -> Seq<char> {
    if p.count() != 1 {
        seq!['s']
    } else {
        Seq::empty()
    }
}

/// The text of one slot: "<count> <unit>", with the plural "s" where due.
pub open spec fn period_text(p: TimePeriod) -> Seq<char> {
    decimal(p.count() as nat) + seq![' '] + unit_name(p) + plural_suffix(p)
}

/// The parts laid end to end with `sep` between each two.
pub open spec fn join(parts: Seq<Seq<char>>, sep: Seq<char>) -> Seq<char>
    decreases parts.len(),
{
    if parts.len() == 0 {
        Seq::empty()
    } else if parts.len() == 1 {
        parts[0]
    } else {
        join(parts.drop_last(), sep) + sep + parts.last()
    }
}

/// The full form: every slot's text, coarsest first, joined by ", ".
pub open spec fn full_text(s: SplitDuration) -> Seq<char> {
    join(s.periods().map_values(|p: TimePeriod| period_text(p)), seq![',', ' '])
}

/// The index of the first nonzero count at or after `i`, or the length of
/// `c` where there is none.
pub open spec fn first_nonzero(c: Seq<u64>, i: int) -> int
    decreases c.len() - i,
{
    if i >= c.len() {
        c.len() as int
    } else if c[i] != 0 {
        i
    } else {
        first_nonzero(c, i + 1)
    }
}

/// The short form: "0 milliseconds" when every count is zero; the
/// milliseconds alone when they are the first nonzero slot; otherwise the
/// first nonzero slot and the slot right after it, joined by " and ".
pub open spec fn short_text(s: SplitDuration) -> Seq<char> {
    let i = first_nonzero(s.counts(), 0);
    if i >= 8 {
        period_text(TimePeriod::Millisecond(0))
    } else if i == 7 {
        period_text(s.periods()[7])
    } else {
        period_text(s.periods()[i]) + seq![' ', 'a', 'n', 'd', ' '] + period_text(
            s.periods()[i + 1],
        )
    }
}

/// The decimal numeral of `n`.
pub fn decimal_string(n: u64) -> (r: String)
    ensures
        r@ == decimal(n as nat),
    decreases n,
{
    let numerals = "0123456789";
    proof {
        reveal_strlit("0123456789");
        assert(numerals@ =~= digits());
    }
    if n < 10 {
        let d = numerals.substring_char(n as usize, n as usize + 1);
        assert(d@ =~= seq![digits()[n as int]]);
        String::from_str(d)
    } else {
        let mut r = decimal_string(n / 10);
        let last = (n % 10) as usize;
        let d = numerals.substring_char(last, last + 1);
        assert(d@ =~= seq![digits()[last as int]]);
        r.append(d);
        r
    }
}

impl TimePeriod {
    pub fn str_name(&self) -> (r: &'static str)
        ensures
            r@ == unit_name(*self),
    {
        match *self {
            TimePeriod::Year(_) => {
                proof {
                    reveal_strlit("year");
                }
                assert("year"@ =~= unit_name(*self));
                "year"
            },
            TimePeriod::Month(_) => {
                proof {
                    reveal_strlit("month");
                }
                assert("month"@ =~= unit_name(*self));
                "month"
            },
            TimePeriod::Week(_) => {
                proof {
                    reveal_strlit("week");
                }
                assert("week"@ =~= unit_name(*self));
                "week"
            },
            TimePeriod::Day(_) => {
                proof {
                    reveal_strlit("day");
                }
                assert("day"@ =~= unit_name(*self));
                "day"
            },
            TimePeriod::Hour(_) => {
                proof {
                    reveal_strlit("hour");
                }
                assert("hour"@ =~= unit_name(*self));
                "hour"
            },
            TimePeriod::Minute(_) => {
                proof {
                    reveal_strlit("minute");
                }
                assert("minute"@ =~= unit_name(*self));
                "minute"
            },
            TimePeriod::Second(_) => {
                proof {
                    reveal_strlit("second");
                }
                assert("second"@ =~= unit_name(*self));
                "second"
            },
            TimePeriod::Millisecond(_) => {
                proof {
                    reveal_strlit("millisecond");
                }
                assert("millisecond"@ =~= unit_name(*self));
                "millisecond"
            },
        }
    }

    pub fn plural_str(&self) -> (r: &'static str)
        ensures
            r@ == plural_suffix(*self),
    {
        if self.is_plural() {
            proof {
                reveal_strlit("s");
            }
            assert("s"@ =~= plural_suffix(*self));
            "s"
        } else {
            proof {
                reveal_strlit("");
            }
            assert(""@ =~= plural_suffix(*self));
            ""
        }
    }

    /// The slot as text, e.g. "3 days" or "1 week".
    pub fn to_string(&self) -> (r: String)
        ensures
            r@ == period_text(*self),
    {
        let mut r = decimal_string(self.val());
        let space = " ";
        proof {
            reveal_strlit(" ");
        }
        assert(space@ =~= seq![' ']);
        r.append(space);
        r.append(self.str_name());
        r.append(self.plural_str());
        r
    }
}

/// Every slot of `s`, coarsest first, joined by ", ".
pub fn render_full(s: &SplitDuration) -> (r: String)
    ensures
        r@ == full_text(*s),
{
    let periods = s.as_vec();
    let ghost texts = s.periods().map_values(|p: TimePeriod| period_text(p));
    let sep = ", ";
    proof {
        reveal_strlit(", ");
    }
    assert(sep@ =~= seq![',', ' ']);
    let mut r = periods[0].to_string();
    assert(texts.take(1).drop_last() =~= Seq::<Seq<char>>::empty());
    let mut i: usize = 1;
    while i < periods.len()
        invariant
            1 <= i <= periods.len(),
            periods@ == s.periods(),
            texts == s.periods().map_values(|p: TimePeriod| period_text(p)),
            sep@ == seq![',', ' '],
            r@ == join(texts.take(i as int), seq![',', ' ']),
        decreases periods.len() - i,
    {
        r.append(sep);
        let part = periods[i].to_string();
        r.append(part.as_str());
        assert(texts.take(i + 1).drop_last() =~= texts.take(i as int));
        i = i + 1;
    }
    assert(texts.take(8) =~= texts);
    r
}

/// The first nonzero slot of `s` and the slot right after it, joined by
/// " and "; "0 milliseconds" when every count is zero.
pub fn render_short(s: &SplitDuration) -> (r: String)
    ensures
        r@ == short_text(*s),
{
    let counts = s.as_vec_u64();
    let periods = s.as_vec();
    let mut i: usize = 0;
    while i < counts.len() && counts[i] == 0
        invariant
            0 <= i <= counts.len(),
            counts@ == s.counts(),
            first_nonzero(s.counts(), 0) == first_nonzero(s.counts(), i as int),
        decreases counts.len() - i,
    {
        i = i + 1;
    }
    if i >= 8 {
        TimePeriod::Millisecond(0).to_string()
    } else if i == 7 {
        periods[7].to_string()
    } else {
        let mut r = periods[i].to_string();
        let and = " and ";
        proof {
            reveal_strlit(" and ");
        }
        assert(and@ =~= seq![' ', 'a', 'n', 'd', ' ']);
        r.append(and);
        let next = periods[i + 1].to_string();
        r.append(next.as_str());
        r
    }
}

/// The full form of the breakdown of `dur`.
pub fn pretty_full(dur: Duration) -> (r: String)
    ensures
        r@ == full_text(split_of(dur.magnitude())),
{
    render_full(&split_duration(dur))
}

/// The short form of the breakdown of `dur`.
pub fn pretty_short(dur: Duration) -> (r: String)
    ensures
        r@ == short_text(split_of(dur.magnitude())),
{
    render_short(&split_duration(dur))
}

/// How many times `c` occurs in `t`.
pub open spec fn count_char(t: Seq<char>, c: char) -> nat
    decreases t.len(),
{
    if t.len() == 0 {
        0
    } else {
        count_char(t.drop_last(), c) + if t.last() == c {
            1nat
        } else {
            0nat
        }
    }
}

proof fn lemma_count_concat(a: Seq<char>, b: Seq<char>, c: char)
    ensures
        count_char(a + b, c) == count_char(a, c) + count_char(b, c),
    decreases b.len(),
{
    if b.len() == 0 {
        assert(a + b =~= a);
    } else {
        assert((a + b).drop_last() =~= a + b.drop_last());
        lemma_count_concat(a, b.drop_last(), c);
    }
}

proof fn lemma_count_absent(t: Seq<char>, c: char)
    requires
        forall|i: int| 0 <= i < t.len() ==> t[i] != c,
    ensures
        count_char(t, c) == 0,
    decreases t.len(),
{
    if t.len() > 0 {
        lemma_count_absent(t.drop_last(), c);
    }
}

proof fn lemma_decimal_is_digits(n: nat)
    ensures
        forall|i: int| 0 <= i < decimal(n).len() ==> digits().contains(#[trigger] decimal(n)[i]),
    decreases n,
{
    if n < 10 {
        assert(digits().contains(digits()[n as int]));
    } else {
        lemma_decimal_is_digits(n / 10);
        let d = (n % 10) as int;
        assert(digits().contains(digits()[d]));
        assert forall|i: int| 0 <= i < decimal(n).len() implies digits().contains(
            #[trigger] decimal(n)[i],
        ) by {
            if i < decimal(n / 10).len() {
                assert(decimal(n)[i] == decimal(n / 10)[i]);
            }
        }
    }
}

proof fn lemma_period_text_has_no_comma(p: TimePeriod)
    ensures
        count_char(period_text(p), ',') == 0,
{
    lemma_decimal_is_digits(p.count() as nat);
    let t = period_text(p);
    assert forall|i: int| 0 <= i < t.len() implies t[i] != ',' by {
        let d = decimal(p.count() as nat);
        if i < d.len() {
            assert(digits().contains(d[i]));
            assert(t[i] == d[i]);
        }
    }
    lemma_count_absent(t, ',');
}

proof fn lemma_join_count(parts: Seq<Seq<char>>, sep: Seq<char>, c: char)
    requires
        parts.len() >= 1,
        forall|i: int| 0 <= i < parts.len() ==> count_char(#[trigger] parts[i], c) == 0,
    ensures
        count_char(join(parts, sep), c) == (parts.len() - 1) * count_char(sep, c),
    decreases parts.len(),
{
    if parts.len() > 1 {
        let init = parts.drop_last();
        assert forall|i: int| 0 <= i < init.len() implies count_char(#[trigger] init[i], c)
            == 0 by {
            assert(init[i] == parts[i]);
        }
        lemma_join_count(init, sep, c);
        lemma_count_concat(join(init, sep), sep, c);
        lemma_count_concat(join(init, sep) + sep, parts.last(), c);
        assert(count_char(parts[parts.len() - 1], c) == 0);
        assert((parts.len() - 1) * count_char(sep, c) == (init.len() - 1) * count_char(sep, c)
            + count_char(sep, c)) by (nonlinear_arith)
            requires
                init.len() == parts.len() - 1,
        ;
    } else {
        assert(count_char(parts[0], c) == 0);
    }
}

/// The full form always has exactly seven commas: one between each two of
/// its eight slots.
pub proof fn lemma_full_text_commas(s: SplitDuration)
    ensures
        count_char(full_text(s), ',') == 7,
{
    let texts = s.periods().map_values(|p: TimePeriod| period_text(p));
    assert forall|i: int| 0 <= i < texts.len() implies count_char(#[trigger] texts[i], ',')
        == 0 by {
        lemma_period_text_has_no_comma(s.periods()[i]);
    }
    lemma_join_count(texts, seq![',', ' '], ',');
    let sep = seq![',', ' '];
    assert(sep.drop_last() =~= seq![',']);
    assert(sep.drop_last().drop_last() =~= Seq::<char>::empty());
    assert(count_char(Seq::<char>::empty(), ',') == 0);
    assert(sep.drop_last().last() == ',');
    assert(count_char(sep.drop_last(), ',') == 1);
    assert(count_char(sep, ',') == 1);
}

} // verus!
