//! What can be relied on of times and spans of time.
use vstd::prelude::*;

use crate::number;
use crate::time;
use crate::time::{Duration, Instant, SystemTime};

verus! {

/// A span of seconds or milliseconds is as long as it says, to the nanosecond; a thousand of
/// the one are one of the other.
pub proof fn law_spans(secs: u64, millis: u64, s: Duration, m: Duration, n: u128)
    requires
        call_ensures(Duration::from_secs, (secs,), s),
        call_ensures(Duration::from_millis, (millis,), m),
        call_ensures(Duration::as_millis, (&m,), n),
    ensures
        s.secs == secs && s.nanos == 0,
        s.in_nanos() == secs * 1_000_000_000,
        m.in_nanos() == millis * 1_000_000,
        n == millis,
        m.secs * 1000 + m.nanos / 1_000_000 == millis,
        m.nanos < 1_000_000_000,
{
}

/// One span is longer than another where it has more seconds, or as many and more nanoseconds.
pub proof fn law_longer_spans(a: Duration, b: Duration, r: bool)
    requires
        a.wf(),
        b.wf(),
        call_ensures(Duration::is_longer, (&a, &b), r),
    ensures
        r <==> a.secs > b.secs || (a.secs == b.secs && a.nanos > b.nanos),
{
}

/// A span is written in seconds where it has one, else in milliseconds, microseconds or
/// nanoseconds, and a whole number of them without a point.
pub proof fn law_spans_are_written(d: Duration, s: String)
    requires
        call_ensures(Duration::to_string, (&d,), s),
        d.wf(),
    ensures
        d.secs > 0 && d.nanos == 0 ==> s@ == number::decimal(d.secs as nat) + "s"@,
        d.secs > 0 && d.nanos > 0 ==> s@ == number::decimal(d.secs as nat) + "."@
            + time::fraction_digits(d.nanos as nat, 100_000_000) + "s"@,
        d.secs == 0 && d.nanos >= 1_000_000 && d.nanos % 1_000_000 == 0 ==> s@ == number::decimal(
            (d.nanos / 1_000_000) as nat,
        ) + "ms"@,
        d.secs == 0 && 1000 <= d.nanos < 1_000_000 && d.nanos % 1000 == 0 ==> s@ == number::decimal(
            (d.nanos / 1000) as nat,
        ) + "\u{b5}s"@,
        d.secs == 0 && d.nanos < 1000 ==> s@ == number::decimal(d.nanos as nat) + "ns"@,
{
}

/// The digits behind the point are those of the fraction, from the highest on, without the
/// zeros at the end.
pub proof fn law_digits_behind_the_point(fraction: nat, divisor: nat)
    requires
        divisor > 0,
        fraction < 10 * divisor,
    ensures
        time::fraction_digits(0, divisor).len() == 0,
        fraction > 0 ==> time::fraction_digits(fraction, divisor).len() > 0 && time::fraction_digits(
            fraction,
            divisor,
        )[0] as int == 48 + fraction / divisor && time::fraction_digits(fraction, divisor).skip(1)
            == time::fraction_digits(fraction % divisor, divisor / 10),
{
    if fraction > 0 {
        assert(fraction / divisor < 10) by (nonlinear_arith)
            requires
                fraction < 10 * divisor,
                divisor > 0,
        ;
        let rest = time::fraction_digits(fraction % divisor, divisor / 10);
        assert(time::fraction_digits(fraction, divisor).skip(1) =~= rest);
    }
}

/// What has gone by since is counted, and nothing where it was not earlier.
pub proof fn law_time_goes_by(now: Instant, earlier: Instant, n: u128)
    requires
        call_ensures(Instant::since, (&now, &earlier), n),
    ensures
        now.nanos >= earlier.nanos ==> earlier.nanos + n == now.nanos,
        now.nanos < earlier.nanos ==> n == 0,
{
}

/// A span has gone by or it has not, where the time is not before; and a time before is within
/// any span, and counts as passed.
pub proof fn law_within_or_passed(
    now: SystemTime,
    span: Duration,
    earlier: SystemTime,
    within: bool,
    passed: bool,
)
    requires
        call_ensures(SystemTime::is_within, (&now, &span, &earlier), within),
        call_ensures(SystemTime::has_passed, (&now, &span, &earlier), passed),
    ensures
        now.in_nanos() >= earlier.in_nanos() ==> (within <==> !passed),
        now.in_nanos() < earlier.in_nanos() ==> within && passed,
        now.in_nanos() >= earlier.in_nanos() + span.secs * 1_000_000_000 + span.nanos ==> passed,
        earlier.in_nanos() <= now.in_nanos() < earlier.in_nanos() + span.secs * 1_000_000_000
            + span.nanos ==> within,
{
}

/// A date comes back as it was given, in seconds and nanoseconds.
pub proof fn law_dates(secs: i64, nanos: u32, r: Option<SystemTime>, t: SystemTime, back: (i64, u32))
    requires
        call_ensures(SystemTime::from_unix, (secs, nanos), r),
        r == Some(t) ==> call_ensures(SystemTime::as_unix, (&t,), back),
    ensures
        r is Some <==> -8_334_601_228_800 <= secs <= 8_210_266_876_799 && nanos < 1_000_000_000,
        r == Some(t) ==> back.0 == secs && back.1 == nanos && t.in_nanos() == secs * 1_000_000_000
            + nanos,
{
}

} // verus!
