//! Decimal rendering of readings and energy values, and topic construction.
//!
//! Readings travel as millidegrees and energy values as microkilowatt-hours;
//! the broker payloads carry them as decimal strings with a fixed number of
//! fractional digits. Every function here is specified character by
//! character.

use vstd::prelude::*;
use vstd::string::StringExecFns;

verus! {

/// The character for one decimal digit.
pub open spec fn digit_char(d: int) -> char {
    if d == 0 { '0' }
    else if d == 1 { '1' }
    else if d == 2 { '2' }
    else if d == 3 { '3' }
    else if d == 4 { '4' }
    else if d == 5 { '5' }
    else if d == 6 { '6' }
    else if d == 7 { '7' }
    else if d == 8 { '8' }
    else { '9' }
}

/// Decimal digits of `n`, most significant first, no leading zeros (a
/// single `'0'` for zero).
pub open spec fn dec_digits(n: nat) -> Seq<char>
    decreases n,
{
    if n < 10 {
        seq![digit_char(n as int)]
    } else {
        dec_digits(n / 10) + seq![digit_char((n % 10) as int)]
    }
}

/// Exactly three digits, for a fractional part below 1000, leading zeros
/// kept.
pub open spec fn frac3_chars(r: int) -> Seq<char> {
    seq![digit_char(r / 100), digit_char((r / 10) % 10), digit_char(r % 10)]
}

/// Decimal string of a millidegree reading: optional minus sign, the whole
/// degrees, a point, and exactly three fractional digits.
pub open spec fn milli_chars(v: int) -> Seq<char> {
    let m = if v >= 0 { v } else { -v };
    let sign: Seq<char> = if v < 0 { seq!['-'] } else { Seq::empty() };
    sign + dec_digits((m / 1000) as nat) + seq!['.'] + frac3_chars(m % 1000)
}

/// Decimal string of an energy value in microkilowatt-hours: the whole
/// kilowatt-hours, a point, and exactly six fractional digits.
pub open spec fn micro_chars(e: nat) -> Seq<char> {
    dec_digits(e / 1_000_000) + seq!['.']
        + frac3_chars(((e / 1000) % 1000) as int) + frac3_chars((e % 1000) as int)
}

/// A per-sensor topic: the base topic, a slash, the sensor name.
pub open spec fn topic_chars(base: Seq<char>, name: Seq<char>) -> Seq<char> {
    base + seq!['/'] + name
}

/// The name under which the aggregate energy value is published.
pub open spec fn energy_suffix() -> Seq<char> {
    seq!['e', 'n', 'e', 'r', 'g', 'y']
}

/// The string for a single decimal digit.
fn digit_str(d: u128) -> (s: &'static str)
    requires
        d < 10,
    ensures
        s@ == seq![digit_char(d as int)],
{
    proof {
        reveal_strlit("0");
        reveal_strlit("1");
        reveal_strlit("2");
        reveal_strlit("3");
        reveal_strlit("4");
        reveal_strlit("5");
        reveal_strlit("6");
        reveal_strlit("7");
        reveal_strlit("8");
        reveal_strlit("9");
    }
    if d == 0 { "0" }
    else if d == 1 { "1" }
    else if d == 2 { "2" }
    else if d == 3 { "3" }
    else if d == 4 { "4" }
    else if d == 5 { "5" }
    else if d == 6 { "6" }
    else if d == 7 { "7" }
    else if d == 8 { "8" }
    else { "9" }
}

/// Decimal digits of `n`, most significant first.
pub fn u128_to_dec(n: u128) -> (s: String)
    ensures
        s@ == dec_digits(n as nat),
    decreases n,
{
    if n < 10 {
        String::from_str(digit_str(n))
    } else {
        proof {
            assert((n as nat) / 10 < n as nat) by (nonlinear_arith)
                requires n >= 10;
        }
        let mut s = u128_to_dec(n / 10);
        s.append(digit_str(n % 10));
        s
    }
}

/// Exactly three digits of a value below 1000.
pub fn frac3_str(r: u64) -> (s: String)
    requires
        r < 1000,
    ensures
        s@ == frac3_chars(r as int),
{
    let mut s = String::from_str(digit_str((r / 100) as u128));
    s.append(digit_str(((r / 10) % 10) as u128));
    s.append(digit_str((r % 10) as u128));
    s
}

/// Decimal string of a millidegree reading, e.g. `-5.250` for -5250.
pub fn milli_to_string(v: i64) -> (s: String)
    ensures
        s@ == milli_chars(v as int),
{
    let wide: i128 = v as i128;
    let magnitude: u128 = if wide < 0 { (-wide) as u128 } else { wide as u128 };
    let mut s = if v < 0 { String::from_str("-") } else { String::new() };
    proof {
        reveal_strlit("-");
        reveal_strlit(".");
    }
    s.append(u128_to_dec(magnitude / 1000).as_str());
    s.append(".");
    s.append(frac3_str((magnitude % 1000) as u64).as_str());
    s
}

/// Decimal string of an energy value in microkilowatt-hours, e.g.
/// `0.581000` for 581000.
pub fn micro_to_string(e: u128) -> (s: String)
    ensures
        s@ == micro_chars(e as nat),
{
    let mut s = u128_to_dec(e / 1_000_000);
    proof {
        reveal_strlit(".");
    }
    s.append(".");
    s.append(frac3_str(((e / 1000) % 1000) as u64).as_str());
    s.append(frac3_str((e % 1000) as u64).as_str());
    s
}

/// The per-sensor topic `{base}/{name}`.
pub fn sensor_topic(base: &str, name: &str) -> (t: String)
    ensures
        t@ == topic_chars(base@, name@),
{
    let mut t = base.to_owned();
    proof {
        reveal_strlit("/");
    }
    t.append("/");
    t.append(name);
    t
}

/// The energy topic `{base}/energy`.
pub fn energy_topic(base: &str) -> (t: String)
    ensures
        t@ == topic_chars(base@, energy_suffix()),
{
    let t = sensor_topic(base, "energy");
    proof {
        reveal_strlit("energy");
        assert("energy"@ =~= energy_suffix());
    }
    t
}

} // verus!
