//! Durations in words.
use crate::text::{concat, concat3, decimal_text, opt_view};
use vstd::prelude::*;

verus! {

/// The integer nearest to `n / d`, the even one where two are equally near.
pub open spec fn round_half_even(n: nat, d: nat) -> nat {
    let q = n / d;
    let r = n % d;
    if 2 * r > d || (2 * r == d && q % 2 == 1) {
        q + 1
    } else {
        q
    }
}

/// The power of two by which `ms / 1000` is scaled to a 53-bit integer, for
/// `1000 <= ms < 64000`.
pub open spec fn binary64_scale(ms: nat) -> nat {
    if ms < 2_000 {
        0x10_0000_0000_0000
    } else if ms < 4_000 {
        0x8_0000_0000_0000
    } else if ms < 8_000 {
        0x4_0000_0000_0000
    } else if ms < 16_000 {
        0x2_0000_0000_0000
    } else if ms < 32_000 {
        0x1_0000_0000_0000
    } else {
        0x8000_0000_0000
    }
}

/// The hundredths of a second of a duration: the double precision number nearest
/// to `ms / 1000`, rounded to two decimals.
pub open spec fn hundredths(ms: nat) -> nat {
    let scale = binary64_scale(ms);
    round_half_even(round_half_even(ms * scale, 1000) * 100, scale)
}

/// A number with two decimals, given in hundredths.
pub open spec fn two_decimals(h: nat) -> Seq<char> {
    crate::text::decimal(h / 100) + "."@ + crate::text::decimal(h / 10 % 10)
        + crate::text::decimal(h % 10)
}

/// A duration in words: milliseconds below a second, seconds with two decimals
/// below a minute, then minutes and seconds, then hours. `unknown` stands for a
/// duration that is missing or negative.
pub open spec fn duration_words(duration_ms: Option<i64>, unknown: Seq<char>) -> Seq<char> {
    match duration_ms {
        None => unknown,
        Some(signed) => if signed < 0 {
            unknown
        } else {
            let ms = signed as nat;
            let hours = crate::text::decimal(ms / 3_600_000) + "h "@;
            let minutes = crate::text::decimal(ms % 3_600_000 / 60_000) + "m"@;
            let secs = ms % 60_000 / 1_000;
            let seconds = " "@ + crate::text::decimal(secs) + "s"@;
            if ms < 1_000 {
                crate::text::decimal(ms) + "ms"@
            } else if ms < 60_000 {
                two_decimals(hundredths(ms)) + "s"@
            } else if ms < 3_600_000 {
                minutes + seconds
            } else if secs > 0 {
                hours + minutes + seconds
            } else {
                hours + minutes
            }
        },
    }
}

fn rounded(n: u128, d: u128) -> (r: u128)
    requires
        0 < d <= 0x10_0000_0000_0000,
        n < 0x100_0000_0000_0000_0000_0000,
    ensures
        r == round_half_even(n as nat, d as nat),
        r <= n / d + 1,
{
    let q: u128 = n / d;
    let rest: u128 = n % d;
    assert(q <= n) by (nonlinear_arith)
        requires
            d > 0,
            q == n / d,
    ;
    if 2 * rest > d || (2 * rest == d && q % 2 == 1) {
        q + 1
    } else {
        q
    }
}

fn seconds_text(ms: u64) -> (r: String)
    requires
        1_000 <= ms < 60_000,
    ensures
        r@ == two_decimals(hundredths(ms as nat)) + "s"@,
{
    let scale: u128 = if ms < 2_000 {
        0x10_0000_0000_0000
    } else if ms < 4_000 {
        0x8_0000_0000_0000
    } else if ms < 8_000 {
        0x4_0000_0000_0000
    } else if ms < 16_000 {
        0x2_0000_0000_0000
    } else if ms < 32_000 {
        0x1_0000_0000_0000
    } else {
        0x8000_0000_0000
    };
    assert(ms * scale < 0xf000_0000_0000_0000_0000) by (nonlinear_arith)
        requires
            ms < 60_000,
            scale <= 0x10_0000_0000_0000,
    ;
    let mantissa: u128 = rounded(ms as u128 * scale, 1000);
    let h: u128 = rounded(mantissa * 100, scale);
    assert((mantissa * 100) / scale as int <= (mantissa * 100) / 0x8000_0000_0000) by {
        vstd::arithmetic::div_mod::lemma_div_is_ordered_by_denominator(
            mantissa * 100,
            0x8000_0000_0000,
            scale as int,
        );
    }
    let h: u64 = h as u64;
    let head = concat(decimal_text(h / 100).as_str(), ".");
    let tail = concat3(decimal_text(h / 10 % 10).as_str(), decimal_text(h % 10).as_str(), "s");
    let r = concat(head.as_str(), tail.as_str());
    assert(r@ =~= two_decimals(hundredths(ms as nat)) + "s"@);
    r
}

/// A duration in words, with `unknown` for one that is missing or negative.
pub fn format_duration_or(duration_ms: Option<i64>, unknown: &str) -> (r: String)
    ensures
        r@ == duration_words(duration_ms, unknown@),
{
    let signed: i64 = match duration_ms {
        Some(ms) => ms,
        None => return unknown.to_string(),
    };
    if signed < 0 {
        return unknown.to_string();
    }
    let ms: u64 = signed as u64;
    if ms < 1_000 {
        return concat(decimal_text(ms).as_str(), "ms");
    }
    if ms < 60_000 {
        return seconds_text(ms);
    }
    let hours = concat(decimal_text(ms / 3_600_000).as_str(), "h ");
    let minutes = concat(decimal_text(ms % 3_600_000 / 60_000).as_str(), "m");
    let secs: u64 = ms % 60_000 / 1_000;
    let seconds = concat3(" ", decimal_text(secs).as_str(), "s");
    if ms < 3_600_000 {
        concat(minutes.as_str(), seconds.as_str())
    } else if secs > 0 {
        concat3(hours.as_str(), minutes.as_str(), seconds.as_str())
    } else {
        concat(hours.as_str(), minutes.as_str())
    }
}

/// A duration in words, where it is known: it is neither missing nor negative.
pub open spec fn known_duration(duration_ms: Option<i64>) -> Option<Seq<char>> {
    match duration_ms {
        Some(ms) => if ms < 0 {
            None
        } else {
            Some(duration_words(duration_ms, Seq::empty()))
        },
        None => None,
    }
}

/// A duration in words, where it is known.
pub fn format_known_duration(duration_ms: Option<i64>) -> (r: Option<String>)
    ensures
        opt_view(r) == known_duration(duration_ms),
{
    match duration_ms {
        Some(ms) => if ms < 0 {
            None
        } else {
            let words = format_duration_or(duration_ms, "");
            Some(words)
        },
        None => None,
    }
}

/// A duration in words, in English.
pub fn format_exact_duration(duration_ms: Option<i64>) -> (r: String)
    ensures
        r@ == duration_words(duration_ms, "No timing data"@),
{
    format_duration_or(duration_ms, "No timing data")
}

} // verus!
