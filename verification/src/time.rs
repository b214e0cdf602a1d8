//! Spans and points of time.
use vstd::prelude::*;

use crate::number;
use crate::number::push_decimal;

verus! {

/// How many nanoseconds a second has.
pub const NANOS_PER_SEC: u32 = 1_000_000_000;

/// A span of time.
#[derive(Debug, Clone, Copy, PartialEq, Eq, Structural)]
pub struct Duration {
    pub secs: u64,
    pub nanos: u32,
}

/// The digits behind the point: `fraction` out of ten times `divisor`, without the zeros
/// at the end.
pub open spec fn fraction_digits(fraction: nat, divisor: nat) -> Seq<char>
    decreases divisor,
{
    if fraction == 0 || divisor == 0 {
        Seq::empty()
    } else {
        seq![number::digit_char(fraction / divisor)] + fraction_digits(
            fraction % divisor,
            divisor / 10,
        )
    }
}

/// A number with a point, as far as there is something behind it.
pub open spec fn point_number(whole: nat, fraction: nat, divisor: nat) -> Seq<char> {
    if fraction > 0 {
        number::decimal(whole) + "."@ + fraction_digits(fraction, divisor)
    } else {
        number::decimal(whole)
    }
}

impl Duration {
    /// The nanoseconds are less than a second.
    pub open spec fn wf(self) -> bool {
        self.nanos < NANOS_PER_SEC
    }

    /// The span in nanoseconds.
    pub open spec fn in_nanos(self) -> nat {
        self.secs as nat * 1_000_000_000 + self.nanos as nat
    }

    /// The span in whole milliseconds.
    pub open spec fn in_millis(self) -> nat {
        self.secs as nat * 1000 + self.nanos as nat / 1_000_000
    }

    /// The text of the span: in seconds where it has one, or else in the largest unit that
    /// it has one of.
    pub open spec fn text(self) -> Seq<char> {
        let n = self.nanos as nat;
        if self.secs > 0 {
            point_number(self.secs as nat, n, 100_000_000) + "s"@
        } else if n >= 1_000_000 {
            point_number(n / 1_000_000, n % 1_000_000, 100_000) + "ms"@
        } else if n >= 1000 {
            point_number(n / 1000, n % 1000, 100) + "\u{b5}s"@
        } else {
            number::decimal(n) + "ns"@
        }
    }

    /// A span of milliseconds.
    pub open spec fn of_millis(millis: u64) -> Duration {
        Duration { secs: millis / 1000, nanos: ((millis % 1000) * 1_000_000) as u32 }
    }

    /// A span of seconds.
    pub fn from_secs(secs: u64) -> (d: Self)
        ensures
            d == (Duration { secs, nanos: 0 }),
            d.wf(),
    {
        Duration { secs, nanos: 0 }
    }

    /// A span of milliseconds.
    pub fn from_millis(millis: u64) -> (d: Self)
        ensures
            d == Duration::of_millis(millis),
            d.wf(),
            d.in_millis() == millis,
            d.in_nanos() == millis * 1_000_000,
    {
        Duration { secs: millis / 1000, nanos: ((millis % 1000) * 1_000_000) as u32 }
    }

    /// The span in whole milliseconds.
    pub fn as_millis(&self) -> (n: u128)
        ensures
            n == self.in_millis(),
    {
        self.secs as u128 * 1000 + (self.nanos / 1_000_000) as u128
    }

    /// Whether the span is longer than another.
    pub fn is_longer(&self, other: &Duration) -> (r: bool)
        requires
            self.wf(),
            other.wf(),
        ensures
            r == (self.in_nanos() > other.in_nanos()),
    {
        self.secs > other.secs || (self.secs == other.secs && self.nanos > other.nanos)
    }

    /// The text of the span.
    pub fn to_string(&self) -> (s: String)
        requires
            self.wf(),
        ensures
            s@ == self.text(),
    {
        let mut s = String::new();
        let n: u64 = self.nanos as u64;
        if self.secs > 0 {
            push_point_number(&mut s, self.secs, n, 100_000_000);
            s.append("s");
        } else if n >= 1_000_000 {
            push_point_number(&mut s, n / 1_000_000, n % 1_000_000, 100_000);
            s.append("ms");
        } else if n >= 1000 {
            push_point_number(&mut s, n / 1000, n % 1000, 100);
            s.append("\u{b5}s");
        } else {
            push_decimal(&mut s, n);
            s.append("ns");
        }
        assert(s@ =~= self.text());
        s
    }
}

fn push_point_number(s: &mut String, whole: u64, fraction: u64, divisor: u64)
    requires
        fraction < 10 * divisor,
        divisor <= 100_000_000,
        divisor == 100_000_000 || divisor == 100_000 || divisor == 100,
    ensures
        final(s)@ == old(s)@ + point_number(whole as nat, fraction as nat, divisor as nat),
{
    let ghost start = s@;
    push_decimal(s, whole);
    if fraction > 0 {
        s.append(".");
        let ghost head = s@;
        let mut f: u64 = fraction;
        let mut d: u64 = divisor;
        let ghost all = fraction_digits(fraction as nat, divisor as nat);
        let ghost mut done = Seq::<char>::empty();
        assert(done + all =~= all);
        assert(head + done =~= head);
        while f > 0 && d > 0
            invariant
                d <= 100_000_000,
                d > 0 ==> f < 10 * d,
                d == 0 ==> f == 0,
                d == 100_000_000 || d == 10_000_000 || d == 1_000_000 || d == 100_000 || d == 10_000
                    || d == 1000 || d == 100 || d == 10 || d == 1 || d == 0,
                s@ == head + done,
                done + fraction_digits(f as nat, d as nat) == all,
            decreases d,
        {
            assert(f / d < 10) by (nonlinear_arith)
                requires
                    f < 10 * d,
                    d > 0,
            ;
            let digit: u8 = (f / d) as u8;
            let c: char = (48u8 + digit) as char;
            s.push(c);
            let ghost before = done;
            proof {
                done = done.push(c);
                assert(head + done =~= (head + before).push(c));
                let rest = fraction_digits((f % d) as nat, (d / 10) as nat);
                assert(done + rest =~= before + (seq![c] + rest));
            }
            f = f % d;
            d = d / 10;
        }
        assert(done + fraction_digits(f as nat, d as nat) =~= done);
        assert(s@ =~= start + point_number(whole as nat, fraction as nat, divisor as nat));
    }
}

/// A point of time, counted in nanoseconds from a fixed one.
#[derive(Debug, Clone, Copy, PartialEq, Eq, Structural)]
pub struct Instant {
    pub nanos: u128,
}

impl Instant {
    /// How long ago `earlier` was, or no time where it was not earlier.
    pub fn since(&self, earlier: &Instant) -> (n: u128)
        ensures
            n == (if self.nanos >= earlier.nanos {
                (self.nanos - earlier.nanos) as nat
            } else {
                0
            }),
    {
        if self.nanos >= earlier.nanos {
            self.nanos - earlier.nanos
        } else {
            0
        }
    }
}

/// The first second that `chrono` has a date for: the start of the year -262143.
pub const FIRST_SECOND: i64 = -8_334_601_228_800;

/// The last second that `chrono` has a date for: the end of the year 262142.
pub const LAST_SECOND: i64 = 8_210_266_876_799;

/// How a date and time is written where the machine is.
pub const LOCAL_FORMAT: &'static str = "%a %b %d %H:%M:%S %Z %Y";

/// How many seconds a day has.
pub const SECONDS_PER_DAY: i32 = 86_400;

/// What `chrono` writes for a date and time, given in seconds and nanoseconds since the start
/// of 1970, so many seconds east of UTC and in a format.
pub uninterp spec fn date_text(secs: i64, nanos: u32, offset: i32, format: Seq<char>) -> Seq<char>;

/// A date and time, counted from the start of 1970.
#[derive(Debug, Clone, Copy, PartialEq, Eq, Structural)]
pub struct SystemTime {
    secs: i64,
    nanos: u32,
}

impl SystemTime {
    #[verifier::type_invariant]
    closed spec fn is_date(self) -> bool {
        FIRST_SECOND <= self.secs <= LAST_SECOND && self.nanos < NANOS_PER_SEC
    }

    /// The nanoseconds since the start of 1970, below zero for a time before that.
    pub closed spec fn in_nanos(self) -> int {
        self.secs * 1_000_000_000 + self.nanos
    }

    /// The time so many seconds and nanoseconds after the start of 1970, where there is a
    /// date for it.
    pub fn from_unix(secs: i64, nanos: u32) -> (r: Option<SystemTime>)
        ensures
            match r {
                Some(t) => FIRST_SECOND <= secs <= LAST_SECOND && nanos < NANOS_PER_SEC
                    && t.in_nanos() == secs * 1_000_000_000 + nanos,
                None => secs < FIRST_SECOND || secs > LAST_SECOND || nanos >= NANOS_PER_SEC,
            },
    {
        if FIRST_SECOND <= secs && secs <= LAST_SECOND && nanos < NANOS_PER_SEC {
            Some(SystemTime { secs, nanos })
        } else {
            None
        }
    }

    /// The whole seconds since the start of 1970, and the nanoseconds after them.
    pub fn as_unix(&self) -> (r: (i64, u32))
        ensures
            FIRST_SECOND <= r.0 <= LAST_SECOND,
            r.1 < NANOS_PER_SEC,
            self.in_nanos() == r.0 * 1_000_000_000 + r.1,
    {
        proof {
            use_type_invariant(self);
        }
        (self.secs, self.nanos)
    }

    /// Whether less time than a span has gone by since `earlier`. Nothing has gone by
    /// where it was not earlier.
    pub fn is_within(&self, span: &Duration, earlier: &SystemTime) -> (r: bool)
        ensures
            r == (self.in_nanos() < earlier.in_nanos() + span.in_nanos()),
    {
        proof {
            use_type_invariant(self);
            use_type_invariant(earlier);
        }
        let now: i128 = self.secs as i128 * 1_000_000_000 + self.nanos as i128;
        let start: i128 = earlier.secs as i128 * 1_000_000_000 + earlier.nanos as i128;
        let length: i128 = span.secs as i128 * 1_000_000_000 + span.nanos as i128;
        now < start + length
    }

    /// Whether a span of time has gone by since `earlier`, or it was not earlier at all.
    pub fn has_passed(&self, span: &Duration, earlier: &SystemTime) -> (r: bool)
        ensures
            r == (self.in_nanos() < earlier.in_nanos() || self.in_nanos() - earlier.in_nanos()
                >= span.in_nanos()),
    {
        proof {
            use_type_invariant(self);
            use_type_invariant(earlier);
        }
        let now: i128 = self.secs as i128 * 1_000_000_000 + self.nanos as i128;
        let start: i128 = earlier.secs as i128 * 1_000_000_000 + earlier.nanos as i128;
        let length: i128 = span.secs as i128 * 1_000_000_000 + span.nanos as i128;
        now < start || now - start >= length
    }

    /// The time zones that a text can be for: less than a day from UTC, in seconds east.
    pub open spec fn is_offset(offset: i32) -> bool {
        -SECONDS_PER_DAY < offset < SECONDS_PER_DAY
    }

    /// The date and time as it is written so many seconds east of UTC.
    pub open spec fn text_at(self, offset: i32) -> Seq<char> {
        date_text(
            (self.in_nanos() / 1_000_000_000) as i64,
            (self.in_nanos() % 1_000_000_000) as u32,
            offset,
            LOCAL_FORMAT@,
        )
    }

    /// The text is this date and time in some time zone.
    pub open spec fn is_local_text(self, text: Seq<char>) -> bool {
        exists|offset: i32|
            SystemTime::is_offset(offset) && text == #[trigger] self.text_at(offset)
    }

    /// `chrono::DateTime::from_timestamp`, `with_timezone` for the local time zone, and
    /// `local_minus_utc` of its `offset`: how many seconds east of UTC the machine's time
    /// zone is at a time. Which offset it is depends on the machine; what is stated is that
    /// there is one, of less than a day, which is all that `chrono` takes for a time zone.
    #[verifier::external_body]
    fn local_offset(secs: i64, nanos: u32) -> (r: Option<i32>)
        requires
            FIRST_SECOND <= secs <= LAST_SECOND,
            nanos < NANOS_PER_SEC,
        ensures
            r is Some,
            SystemTime::is_offset(r->0),
    {
        let utc = chrono::DateTime::from_timestamp(secs, nanos)?;
        Some(utc.with_timezone(&chrono::Local).offset().local_minus_utc())
    }

    /// `chrono::DateTime::from_timestamp`, `with_timezone` for the time zone that
    /// `chrono::FixedOffset::east_opt` gives, and `format`: the date and time so many seconds
    /// east of UTC, written as the format says, which has to be one that `chrono` knows.
    /// There is such a text, and it depends on nothing but what is given here.
    #[verifier::external_body]
    fn format_at(secs: i64, nanos: u32, offset: i32, format: &str) -> (r: Option<String>)
        requires
            FIRST_SECOND <= secs <= LAST_SECOND,
            nanos < NANOS_PER_SEC,
            SystemTime::is_offset(offset),
            format@ == LOCAL_FORMAT@,
        ensures
            r is Some,
            r->0@ == date_text(secs, nanos, offset, format@),
    {
        let utc = chrono::DateTime::from_timestamp(secs, nanos)?;
        let zone = chrono::FixedOffset::east_opt(offset)?;
        Some(utc.with_timezone(&zone).format(format).to_string())
    }

    /// The date and time so many seconds east of UTC, as in
    /// `Sat Mar 08 12:00:00 +00:00 2025`.
    pub fn offset_text(&self, offset: i32) -> (s: String)
        requires
            SystemTime::is_offset(offset),
        ensures
            s@ == self.text_at(offset),
    {
        proof {
            use_type_invariant(self);
        }
        match SystemTime::format_at(self.secs, self.nanos, offset, LOCAL_FORMAT) {
            Some(s) => s,
            None => String::new(),
        }
    }

    /// The date and time where the machine is, as in `Sat Mar 08 12:00:00 +00:00 2025`.
    pub(crate) fn local_text(&self) -> (s: String)
        ensures
            self.is_local_text(s@),
    {
        proof {
            use_type_invariant(self);
        }
        match SystemTime::local_offset(self.secs, self.nanos) {
            Some(offset) => self.offset_text(offset),
            None => String::new(),
        }
    }
}

} // verus!
