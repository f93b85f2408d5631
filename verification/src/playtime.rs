//! Playtime arithmetic: the live playtime of a session and its breakdown
//! into days, hours, minutes and seconds.

use vstd::prelude::*;

verus! {

/// Seconds that count as elapsed between `join_time` and `now`: their
/// difference, or zero when the clock reads earlier than the join.
pub open spec fn elapsed_since(join_time: int, now: int) -> int {
    if now > join_time {
        now - join_time
    } else {
        0
    }
}

/// The live playtime as a mathematical integer: the baseline plus the elapsed
/// seconds.
pub open spec fn live_playtime_exact(baseline: int, join_time: int, now: int) -> int {
    baseline + elapsed_since(join_time, now)
}

/// The live playtime as `live_playtime` returns it: the exact value, held at
/// `i64::MAX` where the exact value no longer fits.
pub open spec fn live_playtime_value(baseline: int, join_time: int, now: int) -> int {
    let exact = live_playtime_exact(baseline, join_time, now);
    if exact > i64::MAX {
        i64::MAX as int
    } else {
        exact
    }
}

/// Live playtime of a session that started at `join_time` with `baseline`
/// seconds already played, observed at `now`.
pub fn live_playtime(baseline: i64, join_time: i64, now: i64) -> (seconds: i64)
    ensures
        seconds == live_playtime_value(baseline as int, join_time as int, now as int),
        seconds >= baseline,
{
    if now <= join_time {
        return baseline;
    }
    let elapsed: i128 = now as i128 - join_time as i128;
    let total: i128 = baseline as i128 + elapsed;
    if total > i64::MAX as i128 {
        i64::MAX
    } else {
        total as i64
    }
}


/// The character that writes the digit `d`, for `0 <= d <= 9`.
pub open spec fn digit_char(d: int) -> char {
    if d == 0 {
        '0'
    } else if d == 1 {
        '1'
    } else if d == 2 {
        '2'
    } else if d == 3 {
        '3'
    } else if d == 4 {
        '4'
    } else if d == 5 {
        '5'
    } else if d == 6 {
        '6'
    } else if d == 7 {
        '7'
    } else if d == 8 {
        '8'
    } else {
        '9'
    }
}

/// The decimal digits of `n`, most significant first, without leading zeros.
pub open spec fn decimal_digits(n: nat) -> Seq<char>
    decreases n,
{
    if n < 10 {
        seq![digit_char(n as int)]
    } else {
        decimal_digits(n / 10) + seq![digit_char((n % 10) as int)]
    }
}

/// The decimal text of `n`, with a leading minus sign when `n` is negative.
pub open spec fn decimal_text(n: int) -> Seq<char> {
    if n < 0 {
        seq!['-'] + decimal_digits((-n) as nat)
    } else {
        decimal_digits(n as nat)
    }
}

/// Quotient of `a` by a positive `b`, rounded toward zero.
pub open spec fn quotient_toward_zero(a: int, b: int) -> int {
    if a >= 0 {
        a / b
    } else {
        -((-a) / b)
    }
}

/// Remainder of `a` by a positive `b` that goes with `quotient_toward_zero`:
/// it has the sign of `a`.
pub open spec fn remainder_toward_zero(a: int, b: int) -> int {
    if a >= 0 {
        a % b
    } else {
        -((-a) % b)
    }
}

/// Whole days in `seconds`.
pub open spec fn days_of(seconds: int) -> int {
    quotient_toward_zero(seconds, 86400)
}

/// Whole hours in what is left of `seconds` after the days.
pub open spec fn hours_of(seconds: int) -> int {
    quotient_toward_zero(remainder_toward_zero(seconds, 86400), 3600)
}

/// Whole minutes in what is left of `seconds` after the hours.
pub open spec fn minutes_of(seconds: int) -> int {
    quotient_toward_zero(remainder_toward_zero(seconds, 3600), 60)
}

/// Seconds left after the minutes.
pub open spec fn seconds_of(seconds: int) -> int {
    remainder_toward_zero(seconds, 60)
}

/// One component of a duration: the count, a space, the unit's name, and an
/// `s` unless the count is exactly one.
pub open spec fn unit_text(count: int, unit: Seq<char>) -> Seq<char> {
    decimal_text(count) + seq![' '] + unit + if count == 1 {
        Seq::<char>::empty()
    } else {
        seq!['s']
    }
}

/// The text of a duration: days, hours, minutes and seconds, separated by a
/// comma and a space.
pub open spec fn duration_text(seconds: int) -> Seq<char> {
    unit_text(days_of(seconds), "day"@) + seq![',', ' '] + unit_text(hours_of(seconds), "hour"@)
        + seq![',', ' '] + unit_text(minutes_of(seconds), "minute"@) + seq![',', ' '] + unit_text(
        seconds_of(seconds),
        "second"@,
    )
}

/// The count that a sign and a magnitude stand for.
pub open spec fn signed_count(negative: bool, magnitude: int) -> int {
    if negative {
        -magnitude
    } else {
        magnitude
    }
}

fn digit_str(d: u64) -> (s: &'static str)
    requires
        d < 10,
    ensures
        s@ == seq![digit_char(d as int)],
{
    proof {
        reveal_strlit("0");
        reveal_strlit("1");
        reveal_strlit("2");
        reveal_strlit("3");
        reveal_strlit("4");
        reveal_strlit("5");
        reveal_strlit("6");
        reveal_strlit("7");
        reveal_strlit("8");
        reveal_strlit("9");
    }
    let s = if d == 0 {
        "0"
    } else if d == 1 {
        "1"
    } else if d == 2 {
        "2"
    } else if d == 3 {
        "3"
    } else if d == 4 {
        "4"
    } else if d == 5 {
        "5"
    } else if d == 6 {
        "6"
    } else if d == 7 {
        "7"
    } else if d == 8 {
        "8"
    } else {
        "9"
    };
    assert(s@ =~= seq![digit_char(d as int)]);
    s
}

fn append_decimal(out: &mut String, n: u64)
    ensures
        final(out)@ == old(out)@ + decimal_digits(n as nat),
    decreases n,
{
    if n >= 10 {
        append_decimal(out, n / 10);
    }
    out.append(digit_str(n % 10));
    assert(out@ =~= old(out)@ + decimal_digits(n as nat));
}

fn append_unit(out: &mut String, negative: bool, magnitude: u64, unit: &str)
    ensures
        final(out)@ == old(out)@ + unit_text(signed_count(negative, magnitude as int), unit@),
{
    proof {
        reveal_strlit("-");
        reveal_strlit(" ");
        reveal_strlit("s");
    }
    if negative && magnitude != 0 {
        out.append("-");
    }
    append_decimal(out, magnitude);
    out.append(" ");
    out.append(unit);
    if negative || magnitude != 1 {
        out.append("s");
    }
    assert(out@ =~= old(out)@ + unit_text(signed_count(negative, magnitude as int), unit@));
}

/// Writes `seconds` as days, hours, minutes and seconds, each with its unit
/// in the singular where the count is one and in the plural otherwise.
pub fn format_duration(seconds: i64) -> (text: String)
    ensures
        text@ == duration_text(seconds as int),
{
    let negative = seconds < 0;
    let magnitude: u64 = if negative {
        (-(seconds as i128)) as u64
    } else {
        seconds as u64
    };
    let days = magnitude / 86400;
    let hours = (magnitude % 86400) / 3600;
    let minutes = (magnitude % 3600) / 60;
    let secs = magnitude % 60;
    assert(signed_count(negative, days as int) == days_of(seconds as int));
    assert(signed_count(negative, hours as int) == hours_of(seconds as int));
    assert(signed_count(negative, minutes as int) == minutes_of(seconds as int));
    assert(signed_count(negative, secs as int) == seconds_of(seconds as int));
    proof {
        reveal_strlit(", ");
    }
    let mut text = String::new();
    append_unit(&mut text, negative, days, "day");
    text.append(", ");
    append_unit(&mut text, negative, hours, "hour");
    text.append(", ");
    append_unit(&mut text, negative, minutes, "minute");
    text.append(", ");
    append_unit(&mut text, negative, secs, "second");
    assert(text@ =~= duration_text(seconds as int));
    text
}

} // verus!
