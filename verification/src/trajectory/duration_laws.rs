//! What the words for a duration promise: they say the time that was taken, in milliseconds, in seconds to the
//! hundredth, or in hours, minutes and seconds.
use crate::text::{decimal, opt_view};
use crate::trajectory::duration::{
    binary64_scale, format_duration_or, format_exact_duration, format_known_duration, hundredths,
    round_half_even,
};
use vstd::prelude::*;

verus! {

/// A time that is not known, or that is less than nothing, is told in the words for the unknown.
pub proof fn unknown_times_are_told_so(
    ms: Option<i64>,
    unknown: &str,
    r: String,
    known: Option<String>,
    exact: String,
)
    requires
        call_ensures(format_duration_or, (ms, unknown), r),
        call_ensures(format_known_duration, (ms,), known),
        call_ensures(format_exact_duration, (ms,), exact),
    ensures
        ms is None || ms->0 < 0 ==> r@ == unknown@ && known is None && exact@ == "No timing data"@,
        ms is Some && ms->0 >= 0 ==> known is Some && (known->0)@ == r@ && exact@ == r@,
{
    assert(opt_view(known) is Some <==> known is Some);
}

/// Less than a second is told in milliseconds.
pub proof fn short_times_are_told_in_milliseconds(ms: i64, unknown: &str, r: String)
    requires
        call_ensures(format_duration_or, (Some(ms), unknown), r),
        0 <= ms < 1000,
    ensures
        r@ == decimal(ms as nat) + "ms"@,
{
}

/// A minute and more is told in minutes and seconds.
pub proof fn long_times_are_told_in_minutes(
    minutes: nat,
    seconds: nat,
    rest: nat,
    ms: i64,
    unknown: &str,
    r: String,
)
    requires
        call_ensures(format_duration_or, (Some(ms), unknown), r),
        1 <= minutes < 60,
        seconds < 60,
        rest < 1000,
        ms == minutes * 60_000 + seconds * 1000 + rest,
    ensures
        r@ == decimal(minutes) + "m"@ + (" "@ + decimal(seconds) + "s"@),
{
    assert(ms as nat % 3_600_000 / 60_000 == minutes);
    assert(ms as nat % 60_000 / 1000 == seconds);
}

proof fn time_is_taken_apart(hours: nat, minutes: nat, seconds: nat, rest: nat)
    requires
        minutes < 60,
        seconds < 60,
        rest < 1000,
    ensures
        ({
            let ms = hours * 3_600_000 + minutes * 60_000 + seconds * 1000 + rest;
            &&& ms / 3_600_000 == hours
            &&& ms % 3_600_000 / 60_000 == minutes
            &&& ms % 60_000 / 1000 == seconds
        }),
{
    let c = seconds * 1000 + rest;
    let b = minutes * 60_000 + c;
    let ms = hours * 3_600_000 + b;
    let n = hours * 60 + minutes;
    assert(ms / 3_600_000 == hours && ms % 3_600_000 == b);
    assert(b / 60_000 == minutes);
    assert(ms == n * 60_000 + c);
    assert((n * 60_000 + c) % 60_000 == c);
    assert(c / 1000 == seconds);
}

/// An hour and more is told in hours, minutes and seconds, and the seconds are left out where there are none.
pub proof fn very_long_times_are_told_in_hours(
    hours: nat,
    minutes: nat,
    seconds: nat,
    rest: nat,
    ms: i64,
    unknown: &str,
    r: String,
)
    requires
        call_ensures(format_duration_or, (Some(ms), unknown), r),
        1 <= hours,
        minutes < 60,
        seconds < 60,
        rest < 1000,
        ms == hours * 3_600_000 + minutes * 60_000 + seconds * 1000 + rest,
    ensures
        seconds > 0 ==> r@ == decimal(hours) + "h "@ + (decimal(minutes) + "m"@) + (" "@ + decimal(
            seconds,
        ) + "s"@),
        seconds == 0 ==> r@ == decimal(hours) + "h "@ + (decimal(minutes) + "m"@),
{
    time_is_taken_apart(hours, minutes, seconds, rest);
}

proof fn rounding_stays_near(n: nat, d: nat)
    requires
        d > 0,
    ensures
        -(d as int) <= 2 * (d * round_half_even(n, d) - n) <= d,
{
    let q = n / d;
    let r = n % d;
    assert(n == d * q + r && r < d) by (nonlinear_arith)
        requires
            d > 0,
            q == n / d,
            r == n % d,
    ;
    assert(d * (q + 1) == d * q + d) by (nonlinear_arith);
}

proof fn hundredths_are_near_at(ms: nat, scale: nat)
    requires
        scale > 20_000,
    ensures
        ({
            let h = round_half_even(round_half_even(ms * scale, 1000) * 100, scale);
            -5 <= 10 * h - ms <= 5
        }),
{
    let a = ms * scale;
    let q = round_half_even(a, 1000);
    let h = round_half_even(q * 100, scale);
    rounding_stays_near(a, 1000);
    rounding_stays_near(q * 100, scale);
    let e = 10 * h - ms;
    let sh = scale * h;
    assert(scale * e == 10 * sh - a) by (nonlinear_arith)
        requires
            e == 10 * h - ms,
            sh == scale * h,
            a == ms * scale,
    ;
    assert(-500 <= 1000 * q - a <= 500);
    assert(-(scale as int) <= 2 * (sh - q * 100) <= scale);
    assert(-10 * scale - 1000 <= 2 * (10 * sh - a) <= 10 * scale + 1000);
    if e >= 6 {
        assert(scale * e >= 6 * scale) by (nonlinear_arith)
            requires
                e >= 6,
                scale > 0,
        ;
    }
    if e <= -6 {
        assert(scale * e <= -6 * scale) by (nonlinear_arith)
            requires
                e <= -6,
                scale > 0,
        ;
    }
}

/// A time of seconds is told to the nearest hundredth of a second: what is told is at most five milliseconds off.
pub proof fn seconds_are_told_to_the_hundredth(ms: i64, unknown: &str, r: String)
    requires
        call_ensures(format_duration_or, (Some(ms), unknown), r),
        1000 <= ms < 60_000,
    ensures
        exists|whole: nat, tenths: nat, rest: nat|
            tenths < 10 && rest < 10 && -5 <= (whole * 1000 + tenths * 100 + rest * 10) - ms <= 5
                && r@ == #[trigger] decimal(whole) + "."@ + #[trigger] decimal(tenths)
                + #[trigger] decimal(rest) + "s"@,
{
    let h = hundredths(ms as nat);
    hundredths_are_near_at(ms as nat, binary64_scale(ms as nat));
    let whole = h / 100;
    let tenths = h / 10 % 10;
    let rest = h % 10;
    assert(whole * 100 + tenths * 10 + rest == h);
    assert(r@ == decimal(whole) + "."@ + decimal(tenths) + decimal(rest) + "s"@);
}

} // verus!
