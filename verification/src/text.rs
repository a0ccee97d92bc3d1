//! Verified text helpers: string comparison and numeric token parsing.
//!
//! Command arguments arrive as whitespace-split tokens; the parsers here
//! turn them into integers or fixed-point values with exact acceptance
//! conditions, so the dispatcher's errors are pinned down input by input.

use vstd::prelude::*;
use crate::fx::{fx_clamp, FX_BOUND, FX_SCALE};

verus! {

/// Character-wise string equality.
pub fn str_eq(a: &str, b: &str) -> (r: bool)
    ensures
        r == (a@ == b@),
{
    let la = a.unicode_len();
    let lb = b.unicode_len();
    if la != lb {
        proof {
            assert(a@ != b@);
        }
        return false;
    }
    let mut i: usize = 0;
    while i < la
        invariant
            0 <= i <= la,
            la == a@.len(),
            la == b@.len(),
            forall|j: int| 0 <= j < i ==> a@[j] == b@[j],
        decreases la - i,
    {
        if a.get_char(i) != b.get_char(i) {
            return false;
        }
        i = i + 1;
    }
    proof {
        assert(a@ =~= b@);
    }
    true
}

/// The decimal digits, `'0'` through `'9'`.
pub open spec fn is_digit(c: char) -> bool {
    48 <= c as u32 <= 57
}

/// Numeric value of one decimal digit.
pub open spec fn digit_val(c: char) -> int {
    c as u32 - 48
}

/// Every character of `s` is a decimal digit.
pub open spec fn all_digits(s: Seq<char>) -> bool {
    forall|i: int| 0 <= i < s.len() ==> is_digit(#[trigger] s[i])
}

/// The number the digit string `s` denotes in base ten.
pub open spec fn digits_val(s: Seq<char>) -> int
    decreases s.len(),
{
    if s.len() == 0 {
        0
    } else {
        digits_val(s.drop_last()) * 10 + digit_val(s.last())
    }
}

/// A digit string denotes a non-negative number.
pub proof fn lemma_digits_val_nonneg(s: Seq<char>)
    requires
        all_digits(s),
    ensures
        digits_val(s) >= 0,
    decreases s.len(),
{
    if s.len() > 0 {
        assert(all_digits(s.drop_last()));
        lemma_digits_val_nonneg(s.drop_last());
        assert(is_digit(s.last()));
    }
}

/// Reading one more digit multiplies the prefix value by ten and adds the
/// digit.
pub proof fn lemma_digits_val_step(s: Seq<char>, i: int)
    requires
        0 <= i < s.len(),
    ensures
        digits_val(s.take(i + 1)) == digits_val(s.take(i)) * 10 + digit_val(s[i]),
{
    assert(s.take(i + 1).drop_last() =~= s.take(i));
    assert(s.take(i + 1).last() == s[i]);
}

/// A longer digit prefix never denotes a smaller number.
pub proof fn lemma_digits_prefix_monotone(s: Seq<char>, i: int, k: int)
    requires
        0 <= i <= k <= s.len(),
        all_digits(s),
    ensures
        digits_val(s.take(i)) <= digits_val(s.take(k)),
    decreases k - i,
{
    if i < k {
        lemma_digits_prefix_monotone(s, i, k - 1);
        lemma_digits_val_step(s, k - 1);
        assert(all_digits(s.take(k - 1))) by {
            assert(forall|j: int| 0 <= j < k - 1 ==> s.take(k - 1)[j] == s[j]);
        }
        lemma_digits_val_nonneg(s.take(k - 1));
        assert(is_digit(s[k - 1]));
    }
}

/// Parse `s` as an unsigned decimal number of at most `bound`.  Returns the
/// value exactly when `s` is non-empty, all digits, and denotes at most
/// `bound`; returns nothing otherwise.
pub fn parse_u64_bounded(s: &str, bound: u64) -> (r: Option<u64>)
    ensures
        r == if s@.len() > 0 && all_digits(s@) && digits_val(s@) <= bound {
            Some((digits_val(s@) as u64))
        } else {
            Option::<u64>::None
        },
{
    let len = s.unicode_len();
    if len == 0 {
        return None;
    }
    let mut acc: u64 = 0;
    let mut i: usize = 0;
    while i < len
        invariant
            0 <= i <= len,
            len == s@.len(),
            all_digits(s@.take(i as int)),
            acc == digits_val(s@.take(i as int)),
            acc <= bound,
        decreases len - i,
    {
        let c = s.get_char(i);
        let code: u32 = c as u32;
        if code < 48 || code > 57 {
            proof {
                assert(!is_digit(s@[i as int]));
            }
            return None;
        }
        let d: u64 = (code - 48) as u64;
        let t: u128 = (acc as u128) * 10 + (d as u128);
        proof {
            lemma_digits_val_step(s@, i as int);
            assert(s@.take(i + 1).drop_last() =~= s@.take(i as int));
        }
        if t > bound as u128 {
            proof {
                assert(digits_val(s@.take(i + 1)) > bound);
                if all_digits(s@) {
                    lemma_digits_prefix_monotone(s@, i + 1, s@.len() as int);
                    assert(s@.take(s@.len() as int) =~= s@);
                }
            }
            return None;
        }
        acc = t as u64;
        i = i + 1;
    }
    proof {
        assert(s@.take(len as int) =~= s@);
    }
    Some(acc)
}

/// Parse an unsigned decimal `u32`, as chart-switch arguments use.
pub fn parse_u32(s: &str) -> (r: Option<u32>)
    ensures
        r == if s@.len() > 0 && all_digits(s@) && digits_val(s@) <= u32::MAX {
            Some((digits_val(s@) as u32))
        } else {
            Option::<u32>::None
        },
{
    proof {
        if s@.len() > 0 && all_digits(s@) {
            lemma_digits_val_nonneg(s@);
        }
    }
    match parse_u64_bounded(s, 0xFFFF_FFFFu64) {
        Some(v) => Some(v as u32),
        None => None,
    }
}

/// Parse an unsigned decimal `usize`, as window and hop arguments use.
pub fn parse_usize(s: &str) -> (r: Option<usize>)
    ensures
        r == if s@.len() > 0 && all_digits(s@) && digits_val(s@) <= usize::MAX {
            Some((digits_val(s@) as usize))
        } else {
            Option::<usize>::None
        },
{
    proof {
        if s@.len() > 0 && all_digits(s@) {
            lemma_digits_val_nonneg(s@);
        }
    }
    match parse_u64_bounded(s, usize::MAX as u64) {
        Some(v) => Some(v as usize),
        None => None,
    }
}

/// Index of the first `'.'` in `s`, or `s.len()` when there is none.
pub open spec fn find_dot(s: Seq<char>) -> int
    decreases s.len(),
{
    if s.len() == 0 {
        0
    } else if s[0] == '.' {
        0
    } else {
        1 + find_dot(s.drop_first())
    }
}

/// `find_dot` names the first dot: it is in range, it sits on a dot when
/// one exists, nothing before it is a dot, and no dot comes earlier.
pub proof fn lemma_find_dot(s: Seq<char>)
    ensures
        0 <= find_dot(s) <= s.len(),
        find_dot(s) < s.len() ==> s[find_dot(s)] == '.',
        forall|j: int| 0 <= j < find_dot(s) ==> s[j] != '.',
        forall|d: int| 0 <= d < s.len() && s[d] == '.' ==> find_dot(s) <= d,
    decreases s.len(),
{
    if s.len() > 0 && s[0] != '.' {
        lemma_find_dot(s.drop_first());
        assert forall|j: int| 0 <= j < find_dot(s) implies s[j] != '.' by {
            if j >= 1 {
                assert(s.drop_first()[j - 1] == s[j]);
                assert(s.drop_first()[j - 1] != '.');
            }
        }
        assert forall|d: int| 0 <= d < s.len() && s[d] == '.' implies find_dot(s) <= d by {
            if d >= 1 {
                assert(s.drop_first()[d - 1] == s[d]);
            }
        }
    }
}

/// The unsigned body of a fixed-point literal: one or more digits, then
/// optionally a dot followed by one or more digits.
pub open spec fn fx_body_shape(t: Seq<char>) -> bool {
    let dot = find_dot(t);
    &&& dot > 0
    &&& all_digits(t.take(dot))
    &&& (dot == t.len() || (dot + 1 < t.len() && all_digits(t.skip(dot + 1))))
}

/// Fixed-point value (in millionth units) of the fractional digit string
/// `f`: the first six digits count, further digits are cut off.
pub open spec fn frac_units(f: Seq<char>) -> int {
    if f.len() >= 6 {
        digits_val(f.take(6))
    } else if f.len() == 5 {
        digits_val(f) * 10
    } else if f.len() == 4 {
        digits_val(f) * 100
    } else if f.len() == 3 {
        digits_val(f) * 1000
    } else if f.len() == 2 {
        digits_val(f) * 10000
    } else if f.len() == 1 {
        digits_val(f) * 100000
    } else {
        0
    }
}

/// Unclamped value, in millionth units, of the literal body `t`.
pub open spec fn fx_body_units(t: Seq<char>) -> int {
    let dot = find_dot(t);
    if dot == t.len() {
        digits_val(t) * FX_SCALE
    } else {
        digits_val(t.take(dot)) * FX_SCALE + frac_units(t.skip(dot + 1))
    }
}

/// The fixed-point number the token `s` denotes: an optional leading minus,
/// then a digit string with an optional fractional part, clamped into the
/// fixed-point range; anything else denotes nothing.
pub open spec fn spec_parse_fx(s: Seq<char>) -> Option<int> {
    let neg = s.len() > 0 && s[0] == '-';
    let t = if neg {
        s.drop_first()
    } else {
        s
    };
    if fx_body_shape(t) {
        if neg {
            Some(fx_clamp(-fx_body_units(t)))
        } else {
            Some(fx_clamp(fx_body_units(t)))
        }
    } else {
        None
    }
}


/// Largest whole-unit magnitude that still fits the fixed-point range.
pub const FX_MAX_UNITS: u64 = 4_611_686_018_427;

/// True exactly when every character of `s` between `a` and `b` is a digit.
fn check_digits(s: &str, a: usize, b: usize) -> (r: bool)
    requires
        a <= b <= s@.len(),
    ensures
        r == all_digits(s@.subrange(a as int, b as int)),
{
    let mut i: usize = a;
    while i < b
        invariant
            a <= i <= b <= s@.len(),
            forall|j: int| a <= j < i ==> is_digit(#[trigger] s@[j]),
        decreases b - i,
    {
        let code: u32 = s.get_char(i) as u32;
        if code < 48 || code > 57 {
            proof {
                assert(!is_digit(s@.subrange(a as int, b as int)[i - a]));
            }
            return false;
        }
        i = i + 1;
    }
    proof {
        assert(forall|j: int|
            0 <= j < b - a ==> s@.subrange(a as int, b as int)[j] == s@[a + j]);
    }
    true
}

/// The number the digits of `s` between `a` and `b` denote, or `bound + 1`
/// when they denote more than `bound`.
fn digits_value_sat(s: &str, a: usize, b: usize, bound: u64) -> (r: u64)
    requires
        a <= b <= s@.len(),
        all_digits(s@.subrange(a as int, b as int)),
        bound < u64::MAX,
    ensures
        r == if digits_val(s@.subrange(a as int, b as int)) > bound {
            bound + 1
        } else {
            digits_val(s@.subrange(a as int, b as int))
        },
{
    let ghost d = s@.subrange(a as int, b as int);
    proof {
        lemma_digits_val_nonneg(d);
    }
    let mut acc: u64 = 0;
    let mut i: usize = a;
    while i < b
        invariant
            a <= i <= b <= s@.len(),
            d == s@.subrange(a as int, b as int),
            all_digits(d),
            bound < u64::MAX,
            acc == if digits_val(d.take(i - a)) > bound {
                bound + 1
            } else {
                digits_val(d.take(i - a))
            },
        decreases b - i,
    {
        let code: u32 = s.get_char(i) as u32;
        proof {
            assert(d[i - a] == s@[i as int]);
            assert(is_digit(d[i - a]));
            lemma_digits_val_step(d, i - a);
            lemma_digits_val_nonneg(d.take(i - a));
        }
        let dv: u64 = (code - 48) as u64;
        if acc > bound {
            proof {
                assert(digits_val(d.take(i + 1 - a)) == digits_val(d.take(i - a)) * 10
                    + digit_val(d[i - a]));
                assert(digits_val(d.take(i - a)) * 10 >= digits_val(d.take(i - a)))
                    by (nonlinear_arith)
                    requires
                        digits_val(d.take(i - a)) >= 0,
                ;
            }
        } else {
            let t: u128 = (acc as u128) * 10 + (dv as u128);
            if t > bound as u128 {
                acc = bound + 1;
            } else {
                acc = t as u64;
            }
        }
        i = i + 1;
    }
    proof {
        assert(d.take(b - a) =~= d);
    }
    acc
}

/// Ten to the power `n`.
pub open spec fn ten_pow(n: int) -> int
    decreases n,
{
    if n <= 0 {
        1
    } else {
        10 * ten_pow(n - 1)
    }
}

/// A digit string of length `n` denotes less than ten to the `n`.
proof fn lemma_digits_len_bound(s: Seq<char>)
    requires
        all_digits(s),
    ensures
        digits_val(s) < ten_pow(s.len() as int),
    decreases s.len(),
{
    if s.len() > 0 {
        assert(all_digits(s.drop_last()));
        lemma_digits_len_bound(s.drop_last());
        assert(is_digit(s.last()));
    }
}

/// Six digits denote less than one million.
proof fn lemma_digits_six_bound(s: Seq<char>)
    requires
        all_digits(s),
        s.len() == 6,
    ensures
        0 <= digits_val(s) < 1_000_000,
{
    lemma_digits_len_bound(s);
    lemma_digits_val_nonneg(s);
    assert(ten_pow(6) == 1_000_000) by {
        reveal_with_fuel(ten_pow, 8);
    }
}

/// Up to five digits denote less than one hundred thousand.
proof fn lemma_digits_small_bound(s: Seq<char>)
    requires
        all_digits(s),
        s.len() <= 5,
    ensures
        0 <= digits_val(s) < 100_000,
{
    lemma_digits_len_bound(s);
    lemma_digits_val_nonneg(s);
    assert(ten_pow(5) == 100_000 && ten_pow(4) == 10_000 && ten_pow(3) == 1000 && ten_pow(2)
        == 100 && ten_pow(1) == 10 && ten_pow(0) == 1) by {
        reveal_with_fuel(ten_pow, 7);
    }
    if s.len() == 4 {
        assert(digits_val(s) < ten_pow(4));
    } else if s.len() == 3 {
        assert(digits_val(s) < ten_pow(3));
    } else if s.len() == 2 {
        assert(digits_val(s) < ten_pow(2));
    } else if s.len() == 1 {
        assert(digits_val(s) < ten_pow(1));
    } else if s.len() == 0 {
        assert(digits_val(s) < ten_pow(0));
    }
}

/// The scaled fractional part is non-negative and below one whole unit.
proof fn lemma_frac_units_range(f: Seq<char>)
    requires
        all_digits(f),
    ensures
        0 <= frac_units(f) < 1_000_000,
{
    if f.len() >= 6 {
        assert(all_digits(f.take(6))) by {
            assert(forall|j: int| 0 <= j < 6 ==> f.take(6)[j] == f[j]);
        }
        lemma_digits_six_bound(f.take(6));
    } else {
        lemma_digits_small_bound(f);
        lemma_digits_len_bound(f);
        assert(ten_pow(5) == 100_000 && ten_pow(4) == 10_000 && ten_pow(3) == 1000 && ten_pow(2)
            == 100 && ten_pow(1) == 10 && ten_pow(0) == 1) by {
            reveal_with_fuel(ten_pow, 7);
        }
    }
}

/// Parse a signed fixed-point decimal token; see `spec_parse_fx` for the
/// accepted shape and the denoted value.
pub fn parse_fx(s: &str) -> (r: Option<i64>)
    ensures
        r == match spec_parse_fx(s@) {
            Some(v) => Some(v as i64),
            None => Option::<i64>::None,
        },
{
    let len = s.unicode_len();
    let neg = len > 0 && s.get_char(0) == '-';
    let start: usize = if neg {
        1
    } else {
        0
    };
    let ghost t = s@.skip(start as int);
    proof {
        lemma_find_dot(t);
        assert(t.len() == len - start);
        assert(forall|j: int| 0 <= j < t.len() ==> t[j] == s@[start + j]);
        if neg {
            assert(t =~= s@.drop_first());
        } else {
            assert(t =~= s@);
        }
    }

    // Locate the first dot past the optional sign.
    let mut dot: usize = len;
    let mut i: usize = start;
    let mut saw_dot = false;
    while i < len && !saw_dot
        invariant
            start <= i <= len,
            len == s@.len(),
            !saw_dot ==> dot == len && forall|j: int| start <= j < i ==> s@[j] != '.',
            saw_dot ==> start <= dot < len && s@[dot as int] == '.' && forall|j: int|
                start <= j < dot ==> s@[j] != '.',
        decreases len - i, if saw_dot { 0int } else { 1int },
    {
        if s.get_char(i) == '.' {
            dot = i;
            saw_dot = true;
        } else {
            i = i + 1;
        }
    }
    proof {
        if saw_dot {
            assert(t[dot - start] == '.');
            if find_dot(t) < dot - start {
                assert(t[find_dot(t)] == '.');
                assert(s@[start + find_dot(t)] == '.');
                assert(false);
            }
        } else {
            assert(forall|j: int| 0 <= j < t.len() ==> t[j] != '.');
            if find_dot(t) < t.len() {
                assert(false);
            }
        }
        assert(find_dot(t) == dot - start);
    }

    if dot == start {
        return None;
    }
    if !check_digits(s, start, dot) {
        proof {
            assert(s@.subrange(start as int, dot as int) =~= t.take(dot - start));
        }
        return None;
    }
    proof {
        assert(s@.subrange(start as int, dot as int) =~= t.take(dot - start));
    }

    let int_sat: u64 = digits_value_sat(s, start, dot, FX_MAX_UNITS);

    let frac: u64;
    let ghost fseq = t.skip(dot - start + 1);
    if dot < len {
        if dot + 1 == len {
            return None;
        }
        if !check_digits(s, dot + 1, len) {
            proof {
                assert(s@.subrange(dot + 1, len as int) =~= fseq);
            }
            return None;
        }
        proof {
            assert(s@.subrange(dot + 1, len as int) =~= fseq);
        }
        let flen = len - dot - 1;
        if flen >= 6 {
            proof {
                assert(s@.subrange(dot + 1, dot + 7) =~= fseq.take(6));
                assert(all_digits(fseq.take(6))) by {
                    assert(forall|j: int| 0 <= j < 6 ==> fseq.take(6)[j] == fseq[j]);
                }
                lemma_digits_six_bound(fseq.take(6));
            }
            frac = digits_value_sat(s, dot + 1, dot + 7, 999_999u64);
        } else {
            proof {
                lemma_digits_small_bound(fseq);
            }
            let raw = digits_value_sat(s, dot + 1, len, 999_999u64);
            frac = if flen == 5 {
                raw * 10
            } else if flen == 4 {
                raw * 100
            } else if flen == 3 {
                raw * 1000
            } else if flen == 2 {
                raw * 10000
            } else {
                raw * 100000
            };
        }
        proof {
            lemma_frac_units_range(fseq);
            assert(frac == frac_units(fseq));
        }
    } else {
        frac = 0;
        proof {
            assert(t.take(dot - start) =~= t);
        }
    }

    let total: i64 = if int_sat > FX_MAX_UNITS {
        proof {
            lemma_digits_val_nonneg(t.take(dot - start));
            assert(digits_val(t.take(dot - start)) >= FX_MAX_UNITS + 1);
            assert(digits_val(t.take(dot - start)) * (FX_SCALE as int) >= (FX_MAX_UNITS + 1)
                * (FX_SCALE as int)) by (nonlinear_arith)
                requires
                    digits_val(t.take(dot - start)) >= FX_MAX_UNITS + 1,
            ;
            assert((FX_MAX_UNITS + 1) * (FX_SCALE as int) == 4_611_686_018_428_000_000int);
            if dot < len {
                lemma_frac_units_range(fseq);
            }
        }
        FX_BOUND
    } else {
        proof {
            assert(digits_val(t.take(dot - start)) == int_sat);
            assert((int_sat as int) * (FX_SCALE as int) <= (FX_MAX_UNITS as int) * (
            FX_SCALE as int)) by (nonlinear_arith)
                requires
                    0 <= int_sat as int <= FX_MAX_UNITS as int,
            ;
            assert((FX_MAX_UNITS as int) * (FX_SCALE as int) == 4_611_686_018_427_000_000int);
        }
        let units: u64 = int_sat * 1_000_000u64 + frac;
        if units > FX_BOUND as u64 {
            FX_BOUND
        } else {
            units as i64
        }
    };
    if neg {
        Some(-total)
    } else {
        Some(total)
    }
}

} // verus!
