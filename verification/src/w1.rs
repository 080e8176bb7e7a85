//! Parsing of a 1-Wire temperature sensor transcript.
//!
//! The kernel exposes a sensor as a small text file of two lines: the first
//! ends in `YES` when the checksum of the raw reading was good, the second
//! carries the temperature in millidegrees after a `t=` marker, e.g.
//! `72 01 ... t=23125`. Reading that file is I/O and happens outside this
//! library; the bytes are parsed here. The parsed value is rounded to
//! centidegree precision (two decimal places), half away from zero.

use vstd::prelude::*;

verus! {

/// Largest number of digits accepted in the temperature field.
pub const MAX_TEMP_DIGITS: usize = 18;

/// Why a transcript could not be turned into a temperature.
#[derive(Clone, Copy, Debug, PartialEq, Eq, Structural)]
pub enum W1Error {
    /// The transcript carries no `YES` marker: the checksum failed.
    CrcCheckFailed,
    /// No `t=` marker occurs in the transcript.
    TemperatureNotFound,
    /// What follows the first `t=` is not an optionally signed decimal
    /// number.
    MalformedTemperature,
    /// The temperature field has more than `MAX_TEMP_DIGITS` digits.
    TemperatureOutOfRange,
}

/// The needle `n` occurs in `h` at position `i`.
pub open spec fn is_match(h: Seq<u8>, n: Seq<u8>, i: int) -> bool {
    0 <= i && i + n.len() <= h.len() && h.subrange(i, i + n.len()) == n
}

/// The needle `n` occurs somewhere in `h`.
pub open spec fn contains_sub(h: Seq<u8>, n: Seq<u8>) -> bool {
    exists|i: int| is_match(h, n, i)
}

/// `i` is the first position at which `n` occurs in `h`.
pub open spec fn first_match(h: Seq<u8>, n: Seq<u8>, i: int) -> bool {
    is_match(h, n, i) && forall|j: int| 0 <= j < i ==> !is_match(h, n, j)
}

/// The bytes of `YES`.
pub open spec fn yes_marker() -> Seq<u8> {
    seq![89u8, 69u8, 83u8]
}

/// The bytes of `t=`.
pub open spec fn t_marker() -> Seq<u8> {
    seq![116u8, 61u8]
}

/// ASCII whitespace, as trimmed from the ends of the temperature field.
pub open spec fn is_ws(b: u8) -> bool {
    b == 32 || (9 <= b && b <= 13)
}

/// `s` with leading whitespace removed.
pub open spec fn trim_front(s: Seq<u8>) -> Seq<u8>
    decreases s.len(),
{
    if s.len() > 0 && is_ws(s[0]) {
        trim_front(s.drop_first())
    } else {
        s
    }
}

/// `s` with trailing whitespace removed.
pub open spec fn trim_back(s: Seq<u8>) -> Seq<u8>
    decreases s.len(),
{
    if s.len() > 0 && is_ws(s.last()) {
        trim_back(s.drop_last())
    } else {
        s
    }
}

/// `s` with whitespace removed from both ends.
pub open spec fn trim_ws(s: Seq<u8>) -> Seq<u8> {
    trim_back(trim_front(s))
}

/// Every byte of `s` is a decimal digit.
pub open spec fn all_digits(s: Seq<u8>) -> bool {
    forall|i: int| 0 <= i < s.len() ==> 48 <= #[trigger] s[i] <= 57
}

/// The digits of a field: the field itself, or what follows a leading
/// minus sign.
pub open spec fn digit_part(s: Seq<u8>) -> Seq<u8> {
    if s.len() > 0 && s[0] == 45 {
        s.drop_first()
    } else {
        s
    }
}

/// A field is numeric when its digit part is one or more decimal digits.
pub open spec fn numeric_field(s: Seq<u8>) -> bool {
    digit_part(s).len() >= 1 && all_digits(digit_part(s))
}

/// Value of a digit string, most significant first.
pub open spec fn digits_val(s: Seq<u8>) -> int
    decreases s.len(),
{
    if s.len() == 0 {
        0
    } else {
        digits_val(s.drop_last()) * 10 + (s.last() - 48)
    }
}

/// Value of a numeric field, with its sign.
pub open spec fn field_val(s: Seq<u8>) -> int {
    if s.len() > 0 && s[0] == 45 {
        -digits_val(digit_part(s))
    } else {
        digits_val(s)
    }
}

/// Rounding of a millidegree value to centidegree precision, half away
/// from zero: the result is the nearest multiple of 10.
pub open spec fn round_centi(v: int) -> int {
    let m = if v >= 0 { v } else { -v };
    let r = m % 10;
    let q = if r >= 5 { m - r + 10 } else { m - r };
    if v >= 0 { q } else { -q }
}

/// Powers of ten.
pub open spec fn pow10(n: nat) -> int
    decreases n,
{
    if n == 0 { 1 } else { 10 * pow10((n - 1) as nat) }
}

/// The temperature field of a transcript whose first `t=` stands at `i`:
/// everything after the marker, trimmed.
pub open spec fn field_at(h: Seq<u8>, i: int) -> Seq<u8> {
    trim_ws(h.subrange(i + 2, h.len() as int))
}

/// What parsing yields once the first `t=` marker is located at `i`.
pub open spec fn w1_outcome(h: Seq<u8>, i: int) -> Result<i64, W1Error> {
    let f = field_at(h, i);
    if !numeric_field(f) {
        Err(W1Error::MalformedTemperature)
    } else if digit_part(f).len() > MAX_TEMP_DIGITS {
        Err(W1Error::TemperatureOutOfRange)
    } else {
        Ok(round_centi(field_val(f)) as i64)
    }
}

proof fn lemma_digits_val_bound(s: Seq<u8>)
    requires
        all_digits(s),
    ensures
        0 <= digits_val(s) < pow10(s.len()),
    decreases s.len(),
{
    if s.len() > 0 {
        assert(all_digits(s.drop_last()));
        lemma_digits_val_bound(s.drop_last());
    }
}

proof fn lemma_pow10_mono(a: nat, b: nat)
    requires
        a <= b,
    ensures
        pow10(a) <= pow10(b),
        pow10(a) >= 1,
    decreases b,
{
    if a < b {
        lemma_pow10_mono(a, (b - 1) as nat);
    } else if b > 0 {
        lemma_pow10_mono((a - 1) as nat, (b - 1) as nat);
    }
}

/// First occurrence of `needle` in `haystack`, if any.
pub fn find_sub(haystack: &[u8], needle: &[u8]) -> (r: Option<usize>)
    requires
        needle@.len() >= 1,
    ensures
        match r {
            Some(i) => first_match(haystack@, needle@, i as int),
            None => !contains_sub(haystack@, needle@),
        },
{
    let hl: usize = haystack.len();
    let nl: usize = needle.len();
    if nl > hl {
        proof {
            assert(forall|i: int| !is_match(haystack@, needle@, i));
        }
        return None;
    }
    let mut i: usize = 0;
    while i <= hl - nl
        invariant
            hl == haystack@.len(),
            nl == needle@.len(),
            1 <= nl <= hl,
            0 <= i <= hl - nl + 1,
            forall|j: int| 0 <= j < i ==> !is_match(haystack@, needle@, j),
        decreases hl - i,
    {
        let mut k: usize = 0;
        while k < nl && haystack[i + k] == needle[k]
            invariant
                hl == haystack@.len(),
                nl == needle@.len(),
                i + nl <= hl,
                0 <= k <= nl,
                forall|j: int| 0 <= j < k ==> haystack@[i + j] == needle@[j],
            decreases nl - k,
        {
            k = k + 1;
        }
        if k == nl {
            proof {
                assert(haystack@.subrange(i as int, i + nl) =~= needle@);
            }
            return Some(i);
        }
        proof {
            assert(!is_match(haystack@, needle@, i as int)) by {
                if is_match(haystack@, needle@, i as int) {
                    assert(haystack@.subrange(i as int, i + nl)[k as int] == needle@[k as int]);
                }
            }
        }
        i = i + 1;
    }
    proof {
        assert(forall|j: int| 0 <= j ==> j > hl - nl ==> !is_match(haystack@, needle@, j));
        assert(!contains_sub(haystack@, needle@));
    }
    None
}

/// Bounds of the whitespace-trimmed tail of `h` that starts at `from`.
fn trim_range(h: &[u8], from: usize) -> (r: (usize, usize))
    requires
        from <= h@.len(),
    ensures
        from <= r.0 <= r.1 <= h@.len(),
        h@.subrange(r.0 as int, r.1 as int)
            == trim_ws(h@.subrange(from as int, h@.len() as int)),
{
    let len: usize = h.len();
    let mut start: usize = from;
    while start < len && is_ws_byte(h[start])
        invariant
            len == h@.len(),
            from <= start <= len,
            trim_front(h@.subrange(from as int, len as int))
                == trim_front(h@.subrange(start as int, len as int)),
        decreases len - start,
    {
        proof {
            assert(h@.subrange(start as int, len as int).drop_first()
                =~= h@.subrange(start + 1, len as int));
        }
        start = start + 1;
    }
    proof {
        assert(trim_front(h@.subrange(from as int, len as int))
            == h@.subrange(start as int, len as int));
    }
    let mut end: usize = len;
    while end > start && is_ws_byte(h[end - 1])
        invariant
            len == h@.len(),
            from <= start <= end <= len,
            trim_back(h@.subrange(start as int, len as int))
                == trim_back(h@.subrange(start as int, end as int)),
        decreases end,
    {
        proof {
            assert(h@.subrange(start as int, end as int).drop_last()
                =~= h@.subrange(start as int, end - 1));
        }
        end = end - 1;
    }
    proof {
        assert(trim_back(h@.subrange(start as int, end as int))
            == h@.subrange(start as int, end as int));
    }
    (start, end)
}

/// Whether one byte is ASCII whitespace.
fn is_ws_byte(b: u8) -> (r: bool)
    ensures
        r == is_ws(b),
{
    b == 32 || (9 <= b && b <= 13)
}

/// Parses the numeric field `h[a..b]` (already trimmed) and rounds it.
fn parse_field(h: &[u8], a: usize, b: usize) -> (r: Result<i64, W1Error>)
    requires
        a <= b <= h@.len(),
    ensures
        ({
            let f = h@.subrange(a as int, b as int);
            if !numeric_field(f) {
                r == Err::<i64, W1Error>(W1Error::MalformedTemperature)
            } else if digit_part(f).len() > MAX_TEMP_DIGITS {
                r == Err::<i64, W1Error>(W1Error::TemperatureOutOfRange)
            } else {
                r == Ok::<i64, W1Error>(round_centi(field_val(f)) as i64)
            }
        }),
{
    let ghost f = h@.subrange(a as int, b as int);
    if a == b {
        return Err(W1Error::MalformedTemperature);
    }
    let negative: bool = h[a] == 45;
    let d0: usize = if negative { a + 1 } else { a };
    proof {
        if negative {
            assert(digit_part(f) =~= h@.subrange(d0 as int, b as int));
        } else {
            assert(digit_part(f) =~= h@.subrange(d0 as int, b as int));
        }
    }
    if d0 == b {
        return Err(W1Error::MalformedTemperature);
    }
    let mut k: usize = d0;
    while k < b && 48 <= h[k] && h[k] <= 57
        invariant
            d0 <= k <= b <= h@.len(),
            forall|j: int| d0 <= j < k ==> 48 <= #[trigger] h@[j] <= 57,
        decreases b - k,
    {
        k = k + 1;
    }
    if k < b {
        proof {
            assert(!all_digits(h@.subrange(d0 as int, b as int))) by {
                assert(h@.subrange(d0 as int, b as int)[k - d0] == h@[k as int]);
            }
        }
        return Err(W1Error::MalformedTemperature);
    }
    proof {
        assert(all_digits(h@.subrange(d0 as int, b as int))) by {
            assert(forall|j: int| 0 <= j < b - d0
                ==> #[trigger] h@.subrange(d0 as int, b as int)[j] == h@[d0 + j]);
        }
        assert(numeric_field(f));
    }
    if b - d0 > MAX_TEMP_DIGITS {
        return Err(W1Error::TemperatureOutOfRange);
    }
    let mut val: u64 = 0;
    let mut m: usize = d0;
    while m < b
        invariant
            d0 <= m <= b <= h@.len(),
            b - d0 <= MAX_TEMP_DIGITS,
            all_digits(h@.subrange(d0 as int, b as int)),
            val == digits_val(h@.subrange(d0 as int, m as int)),
            0 <= val < pow10((m - d0) as nat),
        decreases b - m,
    {
        proof {
            let prefix = h@.subrange(d0 as int, m as int);
            let next = h@.subrange(d0 as int, m + 1);
            assert(next.drop_last() =~= prefix);
            assert(next.last() == h@[m as int]);
            assert(48 <= h@[m as int] <= 57) by {
                assert(h@.subrange(d0 as int, b as int)[m - d0] == h@[m as int]);
            }
            assert(all_digits(prefix)) by {
                assert(forall|j: int| 0 <= j < m - d0
                    ==> #[trigger] prefix[j] == h@.subrange(d0 as int, b as int)[j]);
            }
            lemma_pow10_mono((m - d0) as nat, 17);
            assert(pow10(17) == 100_000_000_000_000_000) by {
                reveal_with_fuel(pow10, 19);
            }
        }
        val = val * 10 + ((h[m] - 48) as u64);
        m = m + 1;
    }
    proof {
        assert(h@.subrange(d0 as int, b as int) =~= h@.subrange(d0 as int, m as int));
        lemma_pow10_mono((b - d0) as nat, 18);
        assert(pow10(18) == 1_000_000_000_000_000_000) by {
            reveal_with_fuel(pow10, 19);
        }
    }
    let remainder: u64 = val % 10;
    let magnitude: u64 = if remainder >= 5 { val - remainder + 10 } else { val - remainder };
    let result: i64 = if negative { -(magnitude as i64) } else { magnitude as i64 };
    proof {
        assert(field_val(f) == if negative { -(val as int) } else { val as int });
        assert(result == round_centi(field_val(f)));
    }
    Ok(result)
}

/// Parses one sensor transcript into a centidegree-rounded millidegree
/// temperature.
///
/// The transcript must carry the checksum marker `YES` and a `t=` field
/// whose trimmed remainder is an optionally signed decimal number of at
/// most `MAX_TEMP_DIGITS` digits; each error names exactly which of these
/// failed first.
pub fn parse_w1_slave(content: &[u8]) -> (r: Result<i64, W1Error>)
    ensures
        (r == Err::<i64, W1Error>(W1Error::CrcCheckFailed))
            <==> !contains_sub(content@, yes_marker()),
        (r == Err::<i64, W1Error>(W1Error::TemperatureNotFound))
            <==> (contains_sub(content@, yes_marker())
                && !contains_sub(content@, t_marker())),
        forall|i: int| contains_sub(content@, yes_marker())
            && first_match(content@, t_marker(), i)
            ==> r == w1_outcome(content@, i),
{
    let mut yes_needle: Vec<u8> = Vec::new();
    yes_needle.push(89);
    yes_needle.push(69);
    yes_needle.push(83);
    proof {
        assert(yes_needle@ =~= yes_marker());
    }
    if find_sub(content, yes_needle.as_slice()).is_none() {
        return Err(W1Error::CrcCheckFailed);
    }
    let mut t_needle: Vec<u8> = Vec::new();
    t_needle.push(116);
    t_needle.push(61);
    proof {
        assert(t_needle@ =~= t_marker());
    }
    let t_pos: usize = match find_sub(content, t_needle.as_slice()) {
        None => {
            return Err(W1Error::TemperatureNotFound);
        },
        Some(p) => p,
    };
    proof {
        assert forall|i: int| first_match(content@, t_marker(), i) implies i == t_pos as int by {
            if i < t_pos as int {
                assert(!is_match(content@, t_marker(), i));
            }
            if i > t_pos as int {
                assert(!is_match(content@, t_marker(), t_pos as int));
            }
        }
        assert(t_pos as int + 2 <= content@.len());
    }
    let content_len: usize = content.len();
    assert(t_pos + 2 <= content_len);
    let (a, b) = trim_range(content, t_pos + 2);
    proof {
        assert(field_at(content@, t_pos as int) == content@.subrange(a as int, b as int));
    }
    parse_field(content, a, b)
}

} // verus!
