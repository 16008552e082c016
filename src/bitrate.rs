use vstd::prelude::*;

use crate::error::JobError;

verus! {

pub open spec fn is_kilo(c: char) -> bool {
    c == 'k' || c == 'K'
}

pub open spec fn is_mega(c: char) -> bool {
    c == 'm' || c == 'M'
}

pub open spec fn is_digit(c: char) -> bool {
    '0' <= c && c <= '9'
}

pub open spec fn digit_value(c: char) -> nat {
    (c as u32 - '0' as u32) as nat
}

/// The suffix letter for thousands (`mega == false`) or millions.
pub open spec fn is_suffix(c: char, mega: bool) -> bool {
    if mega {
        is_mega(c)
    } else {
        is_kilo(c)
    }
}

/// `s` with every trailing suffix letter of the given kind removed.
pub open spec fn strip_trailing(s: Seq<char>, mega: bool) -> Seq<char>
    decreases s.len(),
{
    if s.len() > 0 && is_suffix(s.last(), mega) {
        strip_trailing(s.drop_last(), mega)
    } else {
        s
    }
}

pub open spec fn all_digits(s: Seq<char>) -> bool {
    forall|i: int| 0 <= i < s.len() ==> is_digit(#[trigger] s[i])
}

/// The number written by a string of decimal digits.
pub open spec fn digits_value(s: Seq<char>) -> nat
    decreases s.len(),
{
    if s.len() == 0 {
        0
    } else {
        digits_value(s.drop_last()) * 10 + digit_value(s.last())
    }
}

/// The unsigned number written by `s`: one or more decimal digits after an
/// optional `+`.
pub open spec fn decimal_value(s: Seq<char>) -> Option<nat> {
    let d = if s.len() > 0 && s[0] == '+' { s.drop_first() } else { s };
    if d.len() > 0 && all_digits(d) {
        Some(digits_value(d))
    } else {
        None
    }
}

/// The bit rate that a string such as `"192k"`, `"1M"` or `"800000"` denotes:
/// a decimal number, times 1,000 after a `k` suffix and times 1,000,000 after
/// an `M` suffix, either letter in either case and possibly repeated.
pub open spec fn bitrate_value(s: Seq<char>) -> Option<nat> {
    if s.len() > 0 && is_kilo(s.last()) {
        match decimal_value(strip_trailing(s, false)) {
            Some(n) => Some(n * 1000),
            None => None,
        }
    } else if s.len() > 0 && is_mega(s.last()) {
        match decimal_value(strip_trailing(s, true)) {
            Some(n) => Some(n * 1_000_000),
            None => None,
        }
    } else {
        decimal_value(s)
    }
}

proof fn lemma_digits_value_prefix_monotone(s: Seq<char>, i: int)
    requires
        0 <= i <= s.len(),
    ensures
        digits_value(s.subrange(0, i)) <= digits_value(s),
    decreases s.len() - i,
{
    if i < s.len() {
        lemma_digits_value_prefix_monotone(s, i + 1);
        assert(s.subrange(0, i + 1).drop_last() =~= s.subrange(0, i));
    } else {
        assert(s.subrange(0, i) =~= s);
    }
}

/// Length of `s` once every trailing suffix letter of the given kind is dropped.
fn stripped_len(s: &str, mega: bool) -> (r: usize)
    ensures
        r <= s@.len(),
        s@.subrange(0, r as int) == strip_trailing(s@, mega),
{
    let mut n: usize = s.unicode_len();
    proof {
        assert(s@.subrange(0, n as int) =~= s@);
    }
    while n > 0
        invariant
            n <= s@.len(),
            strip_trailing(s@.subrange(0, n as int), mega) == strip_trailing(s@, mega),
        decreases n,
    {
        let c = s.get_char(n - 1);
        let hit = if mega { c == 'm' || c == 'M' } else { c == 'k' || c == 'K' };
        if !hit {
            assert(!is_suffix(s@.subrange(0, n as int).last(), mega));
            return n;
        }
        assert(s@.subrange(0, n as int).drop_last() =~= s@.subrange(0, n - 1));
        n = n - 1;
    }
    assert(strip_trailing(s@.subrange(0, 0), mega) == s@.subrange(0, 0));
    n
}

/// Reads the decimal number in the first `end` characters of `s`.
fn parse_decimal_prefix(s: &str, end: usize) -> (r: Option<usize>)
    requires
        end <= s@.len(),
    ensures
        match decimal_value(s@.subrange(0, end as int)) {
            Some(v) => if v <= usize::MAX { r == Some(v as usize) } else { r is None },
            None => r is None,
        },
{
    let ghost t = s@.subrange(0, end as int);
    let mut start: usize = 0;
    if end > 0 && s.get_char(0) == '+' {
        start = 1;
    }
    let ghost d = if t.len() > 0 && t[0] == '+' { t.drop_first() } else { t };
    assert(d =~= s@.subrange(start as int, end as int));
    if start == end {
        return None;
    }
    let mut acc: usize = 0;
    let mut i: usize = start;
    while i < end
        invariant
            start <= i <= end,
            end <= s@.len(),
            d == s@.subrange(start as int, end as int),
            t == s@.subrange(0, end as int),
            d == (if t.len() > 0 && t[0] == '+' { t.drop_first() } else { t }),
            d.len() > 0,
            all_digits(s@.subrange(start as int, i as int)),
            acc as nat == digits_value(s@.subrange(start as int, i as int)),
        decreases end - i,
    {
        let c = s.get_char(i);
        if !('0' <= c && c <= '9') {
            assert(d[i - start] == c);
            assert(!is_digit(d[i - start]));
            assert(!all_digits(d));
            assert(decimal_value(t) is None);
            return None;
        }
        let dv = (c as u32 - '0' as u32) as usize;
        let ghost next = s@.subrange(start as int, i + 1);
        assert(next.drop_last() =~= s@.subrange(start as int, i as int));
        if acc > (usize::MAX - dv) / 10 {
            proof {
                assert(digits_value(next) > usize::MAX) by (nonlinear_arith)
                    requires
                        digits_value(next) == acc * 10 + dv,
                        acc > (usize::MAX - dv) / 10,
                        dv <= 9,
                ;
                assert(next =~= d.subrange(0, i + 1 - start));
                lemma_digits_value_prefix_monotone(d, i + 1 - start);
                if all_digits(d) {
                    assert(decimal_value(t) == Some(digits_value(d)));
                } else {
                    assert(decimal_value(t) is None);
                }
            }
            return None;
        }
        acc = acc * 10 + dv;
        i = i + 1;
        assert(all_digits(s@.subrange(start as int, i as int))) by {
            assert forall|j: int| 0 <= j < i - start implies is_digit(
                #[trigger] s@.subrange(start as int, i as int)[j],
            ) by {
                if j < i - 1 - start {
                    assert(s@.subrange(start as int, i - 1)[j] == s@.subrange(
                        start as int,
                        i as int,
                    )[j]);
                }
            }
        }
    }
    assert(s@.subrange(start as int, i as int) =~= d);
    Some(acc)
}

/// Reads a bit rate written as `"192k"`, `"1M"` or `"800000"` (see
/// `bitrate_value`). Fails with `InvalidBitrate` on anything else, and where
/// the value does not fit in `usize`.
pub fn parse_bitrate(bitrate: &str) -> (r: Result<usize, JobError>)
    ensures
        match bitrate_value(bitrate@) {
            Some(v) => if v <= usize::MAX {
                r == Ok::<usize, JobError>(v as usize)
            } else {
                r == Err::<usize, JobError>(JobError::InvalidBitrate)
            },
            None => r == Err::<usize, JobError>(JobError::InvalidBitrate),
        },
{
    let n = bitrate.unicode_len();
    let mut scale: usize = 1;
    let mut end: usize = n;
    if n > 0 {
        let c = bitrate.get_char(n - 1);
        if c == 'k' || c == 'K' {
            scale = 1000;
            end = stripped_len(bitrate, false);
        } else if c == 'm' || c == 'M' {
            scale = 1_000_000;
            end = stripped_len(bitrate, true);
        }
    }
    proof {
        if scale == 1 {
            assert(bitrate@.subrange(0, end as int) =~= bitrate@);
        }
    }
    match parse_decimal_prefix(bitrate, end) {
        Some(v) => {
            if v > usize::MAX / scale {
                assert(v * scale > usize::MAX) by (nonlinear_arith)
                    requires
                        v > usize::MAX / scale,
                        scale > 0,
                ;
                Err(JobError::InvalidBitrate)
            } else {
                assert(v * scale <= usize::MAX) by (nonlinear_arith)
                    requires
                        v <= usize::MAX / scale,
                        scale > 0,
                ;
                Ok(v * scale)
            }
        },
        None => Err(JobError::InvalidBitrate),
    }
}

} // verus!
