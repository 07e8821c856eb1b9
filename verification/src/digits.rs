//! Decimal parsing over ASCII bytes.
//!
//! The command line hands every numeric value over as text. These parsers
//! accept exactly what the standard library's unsigned integer parsing
//! accepts: an optional leading plus sign followed by one or more decimal
//! digits, within range.

use crate::errors::VampError;
use vstd::prelude::*;
use vstd::slice::slice_index_get;
use vstd::string::StringSliceAdditionalSpecFns;

verus! {

/// ASCII decimal digit.
pub open spec fn spec_is_digit(b: u8) -> bool {
    48 <= b <= 57
}

/// Every byte of the sequence is a decimal digit.
pub open spec fn spec_all_digits(s: Seq<u8>) -> bool {
    forall|i: int| 0 <= i < s.len() ==> spec_is_digit(#[trigger] s[i])
}

/// The integer a digit string denotes, most significant digit first.
pub open spec fn spec_digits_value(s: Seq<u8>) -> int
    decreases s.len(),
{
    if s.len() == 0 {
        0
    } else {
        spec_digits_value(s.drop_last()) * 10 + (s.last() - 48)
    }
}

/// Powers of ten.
pub open spec fn spec_pow10(n: nat) -> int
    decreases n,
{
    if n == 0 {
        1
    } else {
        10 * spec_pow10((n - 1) as nat)
    }
}

/// The digit string without an optional single leading plus sign.
pub open spec fn spec_unsigned_body(s: Seq<u8>) -> Seq<u8> {
    if s.len() >= 1 && s[0] == 43 {
        s.subrange(1, s.len() as int)
    } else {
        s
    }
}

/// What `str::parse::<u64>` accepts and returns: an optional plus sign,
/// then one or more digits, denoting a value that fits in a `u64`.
pub open spec fn spec_parse_u64(s: Seq<u8>) -> Option<u64> {
    let body = spec_unsigned_body(s);
    if body.len() > 0 && spec_all_digits(body) && spec_digits_value(body) <= u64::MAX {
        Some(spec_digits_value(body) as u64)
    } else {
        None
    }
}

/// What `str::parse::<u8>` accepts and returns.
pub open spec fn spec_parse_u8(s: Seq<u8>) -> Option<u8> {
    let body = spec_unsigned_body(s);
    if body.len() > 0 && spec_all_digits(body) && spec_digits_value(body) <= u8::MAX {
        Some(spec_digits_value(body) as u8)
    } else {
        None
    }
}

/// A digit string denotes a nonnegative value.
pub proof fn lemma_digits_value_nonneg(s: Seq<u8>)
    requires
        spec_all_digits(s),
    ensures
        spec_digits_value(s) >= 0,
    decreases s.len(),
{
    if s.len() > 0 {
        assert(spec_all_digits(s.drop_last())) by {
            assert(forall|i: int|
                0 <= i < s.len() - 1 ==> spec_is_digit(#[trigger] s.drop_last()[i]) == spec_is_digit(
                    s[i],
                ));
        }
        lemma_digits_value_nonneg(s.drop_last());
    }
}

/// Extending a digit string on the right cannot decrease its value.
pub proof fn lemma_digits_value_take_le(s: Seq<u8>, i: int)
    requires
        spec_all_digits(s),
        0 <= i <= s.len(),
    ensures
        spec_digits_value(s.take(i)) <= spec_digits_value(s),
    decreases s.len() - i,
{
    if i < s.len() {
        let t = s.take(i + 1);
        assert(t.drop_last() =~= s.take(i));
        assert(spec_all_digits(s.take(i)));
        lemma_digits_value_nonneg(s.take(i));
        assert(spec_digits_value(t) == spec_digits_value(s.take(i)) * 10 + (s[i] - 48));
        lemma_digits_value_take_le(s, i + 1);
        assert(s.take(s.len() as int) =~= s);
    } else {
        assert(s.take(i) =~= s);
    }
}

/// A string of n digits denotes a value below ten to the n.
pub proof fn lemma_digits_value_bound(s: Seq<u8>)
    requires
        spec_all_digits(s),
    ensures
        spec_digits_value(s) < spec_pow10(s.len()),
    decreases s.len(),
{
    if s.len() > 0 {
        assert(spec_all_digits(s.drop_last())) by {
            assert(forall|i: int|
                0 <= i < s.len() - 1 ==> spec_is_digit(#[trigger] s.drop_last()[i]) == spec_is_digit(
                    s[i],
                ));
        }
        lemma_digits_value_bound(s.drop_last());
        assert(spec_digits_value(s.drop_last()) <= spec_pow10((s.len() - 1) as nat) - 1);
        assert(spec_digits_value(s) <= (spec_pow10((s.len() - 1) as nat) - 1) * 10 + 9) by {
            lemma_mul_le_mono(
                spec_digits_value(s.drop_last()),
                spec_pow10((s.len() - 1) as nat) - 1,
            );
        }
        assert(spec_pow10(s.len()) == 10 * spec_pow10((s.len() - 1) as nat));
    }
}

/// Multiplying the smaller side of an inequality by ten keeps it smaller.
proof fn lemma_mul_le_mono(a: int, b: int)
    requires
        a <= b,
    ensures
        a * 10 <= b * 10,
{
}

/// Powers of ten are positive.
pub proof fn lemma_pow10_pos(n: nat)
    ensures
        spec_pow10(n) >= 1,
    decreases n,
{
    if n > 0 {
        lemma_pow10_pos((n - 1) as nat);
    }
}

/// Powers of ten grow with the exponent.
pub proof fn lemma_pow10_mono(a: nat, b: nat)
    requires
        a <= b,
    ensures
        spec_pow10(a) <= spec_pow10(b),
    decreases b - a,
{
    if a < b {
        lemma_pow10_mono(a, (b - 1) as nat);
        lemma_pow10_pos((b - 1) as nat);
    }
}

/// Powers of ten multiply by adding exponents.
pub proof fn lemma_pow10_add(a: nat, b: nat)
    ensures
        spec_pow10(a) * spec_pow10(b) == spec_pow10(a + b),
    decreases a,
{
    if a == 0 {
    } else {
        lemma_pow10_add((a - 1) as nat, b);
        assert(spec_pow10(a) * spec_pow10(b) == 10 * (spec_pow10((a - 1) as nat) * spec_pow10(b)))
            by (nonlinear_arith)
            requires
                spec_pow10(a) == 10 * spec_pow10((a - 1) as nat),
        ;
    }
}

/// The useful concrete powers of ten.
pub proof fn lemma_pow10_values()
    ensures
        spec_pow10(0) == 1,
        spec_pow10(1) == 10,
        spec_pow10(2) == 100,
        spec_pow10(3) == 1000,
        spec_pow10(4) == 10000,
        spec_pow10(5) == 100000,
        spec_pow10(6) == 1000000,
        spec_pow10(7) == 10000000,
        spec_pow10(8) == 100000000,
        spec_pow10(9) == 1000000000,
{
    assert(spec_pow10(0) == 1);
    assert(spec_pow10(1) == 10);
    assert(spec_pow10(2) == 100);
    assert(spec_pow10(3) == 1000);
    assert(spec_pow10(4) == 10000);
    assert(spec_pow10(5) == 100000);
    assert(spec_pow10(6) == 1000000);
    assert(spec_pow10(7) == 10000000);
    assert(spec_pow10(8) == 100000000);
    assert(spec_pow10(9) == 1000000000);
}

/// Ten to the power `e`, for small exponents.
pub fn pow10_u64(e: usize) -> (r: u64)
    requires
        e <= 9,
    ensures
        r == spec_pow10(e as nat),
{
    let mut r: u64 = 1;
    let mut i: usize = 0;
    while i < e
        invariant
            i <= e <= 9,
            r == spec_pow10(i as nat),
            r <= 1000000000,
        decreases e - i,
    {
        proof {
            lemma_pow10_mono((i + 1) as nat, 9nat);
            lemma_pow10_values();
        }
        r = r * 10;
        i = i + 1;
    }
    r
}

/// Parse the digit run `s[from..to]` as a `u64`, requiring every byte in the
/// range to be a digit and the value to fit.
///
/// Returns `ArgumentError` on the first non-digit or on overflow; in either
/// case no parse of the whole range can succeed.
pub fn parse_digit_run(s: &[u8], from: usize, to: usize) -> (r: Result<u64, VampError>)
    requires
        from <= to <= s@.len(),
    ensures
        match r {
            Ok(v) => spec_all_digits(s@.subrange(from as int, to as int)) && v
                == spec_digits_value(s@.subrange(from as int, to as int)) && spec_digits_value(
                s@.subrange(from as int, to as int),
            ) <= u64::MAX,
            Err(e) => (!spec_all_digits(s@.subrange(from as int, to as int)) || spec_digits_value(
                s@.subrange(from as int, to as int),
            ) > u64::MAX) && e == VampError::ArgumentError,
        },
{
    let ghost whole = s@.subrange(from as int, to as int);
    let mut acc: u64 = 0;
    let mut j: usize = from;
    while j < to
        invariant
            from <= j <= to <= s@.len(),
            whole == s@.subrange(from as int, to as int),
            spec_all_digits(whole.take(j - from)),
            acc == spec_digits_value(whole.take(j - from)),
        decreases to - j,
    {
        let c = *slice_index_get(s, j);
        assert(c == whole[j - from]);
        if c < 48 || c > 57 {
            assert(!spec_all_digits(whole));
            return Err(VampError::ArgumentError);
        }
        let d = (c - 48) as u64;
        let wide: u128 = (acc as u128) * 10 + (d as u128);
        proof {
            assert(whole.take(j - from + 1).drop_last() =~= whole.take(j - from));
            assert(whole.take(j - from + 1).last() == whole[j - from]);
            assert(spec_digits_value(whole.take(j - from + 1)) == acc * 10 + d);
        }
        if wide > u64::MAX as u128 {
            proof {
                if spec_all_digits(whole) {
                    lemma_digits_value_take_le(whole, j - from + 1);
                }
            }
            return Err(VampError::ArgumentError);
        }
        acc = wide as u64;
        j = j + 1;
    }
    proof {
        assert(whole.take(to - from) =~= whole);
    }
    Ok(acc)
}

/// Parse a whole byte string as `str::parse::<u64>` would: an optional
/// leading plus sign, then one or more decimal digits.
pub fn parse_u64_bytes(s: &[u8]) -> (r: Result<u64, VampError>)
    ensures
        match r {
            Ok(v) => spec_parse_u64(s@) == Some(v),
            Err(e) => spec_parse_u64(s@) is None && e == VampError::ArgumentError,
        },
{
    let start: usize = if s.len() >= 1 && *slice_index_get(s, 0) == 43 {
        1
    } else {
        0
    };
    proof {
        assert(spec_unsigned_body(s@) =~= s@.subrange(start as int, s@.len() as int));
    }
    if start == s.len() {
        return Err(VampError::ArgumentError);
    }
    match parse_digit_run(s, start, s.len()) {
        Ok(v) => Ok(v),
        Err(e) => Err(e),
    }
}

/// Parse a whole byte string as `str::parse::<u8>` would.
pub fn parse_u8_bytes(s: &[u8]) -> (r: Result<u8, VampError>)
    ensures
        match r {
            Ok(v) => spec_parse_u8(s@) == Some(v),
            Err(e) => spec_parse_u8(s@) is None && e == VampError::ArgumentError,
        },
{
    proof {
        let body = spec_unsigned_body(s@);
        if body.len() > 0 && spec_all_digits(body) {
            lemma_digits_value_nonneg(body);
        }
    }
    match parse_u64_bytes(s) {
        Ok(v) => {
            if v <= 255 {
                Ok(v as u8)
            } else {
                Err(VampError::ArgumentError)
            }
        },
        Err(e) => Err(e),
    }
}

/// Parse a string as `str::parse::<u64>` would.
pub fn parse_u64_decimal(s: &str) -> (r: Result<u64, VampError>)
    ensures
        match r {
            Ok(v) => spec_parse_u64(s.spec_bytes()) == Some(v),
            Err(e) => spec_parse_u64(s.spec_bytes()) is None && e == VampError::ArgumentError,
        },
{
    parse_u64_bytes(s.as_bytes())
}

/// Parse a string as `str::parse::<u8>` would.
pub fn parse_u8_decimal(s: &str) -> (r: Result<u8, VampError>)
    ensures
        match r {
            Ok(v) => spec_parse_u8(s.spec_bytes()) == Some(v),
            Err(e) => spec_parse_u8(s.spec_bytes()) is None && e == VampError::ArgumentError,
        },
{
    parse_u8_bytes(s.as_bytes())
}

/// The position of the first occurrence of `t` in `s`, if any.
pub open spec fn spec_first_pos(s: Seq<u8>, t: u8) -> Option<int>
    decreases s.len(),
{
    if s.len() == 0 {
        None
    } else if s[0] == t {
        Some(0)
    } else {
        match spec_first_pos(s.drop_first(), t) {
            Some(i) => Some(i + 1),
            None => None,
        }
    }
}

/// `spec_first_pos` finds exactly the first occurrence.
pub proof fn lemma_first_pos_characterizes(s: Seq<u8>, t: u8)
    ensures
        match spec_first_pos(s, t) {
            Some(i) => 0 <= i < s.len() && s[i] == t && forall|j: int| 0 <= j < i ==> s[j] != t,
            None => forall|j: int| 0 <= j < s.len() ==> s[j] != t,
        },
    decreases s.len(),
{
    if s.len() > 0 && s[0] != t {
        let rest = s.drop_first();
        lemma_first_pos_characterizes(rest, t);
        match spec_first_pos(rest, t) {
            Some(i) => {
                assert(s[i + 1] == rest[i]);
                assert forall|j: int| 0 <= j < i + 1 implies s[j] != t by {
                    if j >= 1 {
                        assert(rest[j - 1] == s[j]);
                        assert(rest[j - 1] != t);
                    }
                }
            },
            None => {
                assert forall|j: int| 0 <= j < s.len() implies s[j] != t by {
                    if j >= 1 {
                        assert(rest[j - 1] == s[j]);
                        assert(rest[j - 1] != t);
                    }
                }
            },
        }
    }
}

/// Find the first occurrence of `t` in `s`.
pub fn find_first(s: &[u8], t: u8) -> (r: Option<usize>)
    ensures
        match r {
            Some(i) => Some(i as int) == spec_first_pos(s@, t),
            None => spec_first_pos(s@, t) is None,
        },
{
    let mut i: usize = 0;
    while i < s.len()
        invariant
            i <= s@.len(),
            forall|j: int| 0 <= j < i ==> s@[j] != t,
        decreases s@.len() - i,
    {
        if *slice_index_get(s, i) == t {
            proof {
                lemma_first_pos_characterizes(s@, t);
                match spec_first_pos(s@, t) {
                    Some(p) => {
                        if p < i {
                            assert(s@[p] != t);
                        }
                        if p > i {
                            assert(s@[i as int] != t);
                        }
                    },
                    None => {
                        assert(s@[i as int] != t);
                    },
                }
            }
            return Some(i);
        }
        i = i + 1;
    }
    proof {
        lemma_first_pos_characterizes(s@, t);
    }
    None
}

} // verus!
