//! Coercion of option text to an unsigned integer, as `--timeout` needs it:
//! an optional leading `+`, then one or more ASCII decimal digits, whose
//! value must fit in a `u64`.

use vstd::prelude::*;

verus! {

/// True when `c` is an ASCII decimal digit.
pub open spec fn is_decimal_digit(c: char) -> bool {
    48 <= c as u32 && c as u32 <= 57
}

/// The numeric value of the digit `c` (meaningful only under
/// `is_decimal_digit`).
pub open spec fn decimal_digit_value(c: char) -> int {
    c as u32 - 48
}

/// True when every character of `s` is an ASCII decimal digit.
pub open spec fn all_decimal_digits(s: Seq<char>) -> bool {
    forall|i: int| 0 <= i < s.len() ==> is_decimal_digit(#[trigger] s[i])
}

/// The value of `s` read as a base-10 numeral, most significant digit first.
pub open spec fn decimal_value(s: Seq<char>) -> int
    decreases s.len(),
{
    if s.len() == 0 {
        0
    } else {
        decimal_value(s.drop_last()) * 10 + decimal_digit_value(s.last())
    }
}

/// The characters of `s` that must be digits: everything after an optional
/// leading `+`.
pub open spec fn digit_part(s: Seq<char>) -> Seq<char> {
    if s.len() > 0 && s[0] == '+' {
        s.skip(1)
    } else {
        s
    }
}

/// What parsing `s` as a `u64` yields: `Some` exactly when, after an optional
/// leading `+`, at least one character remains, all of them are decimal
/// digits, and their value fits in a `u64`.
pub open spec fn spec_parse_u64(s: Seq<char>) -> Option<u64> {
    let digits = digit_part(s);
    if digits.len() > 0 && all_decimal_digits(digits) && decimal_value(digits) <= u64::MAX {
        Some(decimal_value(digits) as u64)
    } else {
        None
    }
}

proof fn lemma_decimal_value_nonneg(s: Seq<char>)
    requires
        all_decimal_digits(s),
    ensures
        decimal_value(s) >= 0,
    decreases s.len(),
{
    if s.len() > 0 {
        assert(all_decimal_digits(s.drop_last()));
        lemma_decimal_value_nonneg(s.drop_last());
    }
}

/// A prefix of a digit string never exceeds the whole string in value.
proof fn lemma_decimal_value_prefix_le(s: Seq<char>, n: int)
    requires
        all_decimal_digits(s),
        0 <= n <= s.len(),
    ensures
        decimal_value(s.take(n)) <= decimal_value(s),
    decreases s.len() - n,
{
    if n == s.len() {
        assert(s.take(n) =~= s);
    } else {
        assert(s.take(n + 1).drop_last() =~= s.take(n));
        assert(s.take(n + 1).last() == s[n]);
        assert(all_decimal_digits(s.take(n)));
        lemma_decimal_value_nonneg(s.take(n));
        assert(decimal_value(s.take(n)) <= decimal_value(s.take(n + 1)));
        lemma_decimal_value_prefix_le(s, n + 1);
    }
}

/// Parses `s` as a base-10 `u64`: an optional leading `+`, then one or more
/// decimal digits. Returns `None` on any other character, on an empty digit
/// string, and on a value that does not fit.
pub fn parse_u64(s: &str) -> (r: Option<u64>)
    ensures
        r == spec_parse_u64(s@),
{
    let len = s.unicode_len();
    let mut i: usize = 0;
    if len > 0 && s.get_char(0) == '+' {
        i = 1;
    }
    let ghost start = i as int;
    let ghost digits = digit_part(s@);
    proof {
        assert(digits =~= s@.subrange(start, s@.len() as int));
    }
    if i == len {
        return None;
    }
    let mut acc: u64 = 0;
    while i < len
        invariant
            0 <= start <= i as int <= len,
            len == s@.len(),
            digits == digit_part(s@),
            digits =~= s@.subrange(start, s@.len() as int),
            digits.len() > 0,
            all_decimal_digits(digits.take(i as int - start)),
            acc == decimal_value(digits.take(i as int - start)),
        decreases len - i,
    {
        let c = s.get_char(i);
        let u: u32 = c as u32;
        proof {
            assert(digits[i as int - start] == s@[i as int]);
        }
        if u < 48 || u > 57 {
            assert(!is_decimal_digit(digits[i as int - start]));
            return None;
        }
        let d: u64 = (u - 48) as u64;
        let ghost k = i as int - start;
        proof {
            assert(digits.take(k + 1).drop_last() =~= digits.take(k));
            assert(digits.take(k + 1).last() == digits[k]);
        }
        let next: Option<u64> = match acc.checked_mul(10) {
            Some(x) => x.checked_add(d),
            None => None,
        };
        match next {
            Some(v) => {
                acc = v;
                i = i + 1;
            },
            None => {
                proof {
                    assert(decimal_value(digits.take(k + 1)) == acc * 10 + d);
                    assert(decimal_value(digits.take(k + 1)) > u64::MAX);
                    if all_decimal_digits(digits) {
                        lemma_decimal_value_prefix_le(digits, k + 1);
                        assert(decimal_value(digits) > u64::MAX);
                    }
                }
                return None;
            },
        }
    }
    proof {
        assert(digits.take(len - start) =~= digits);
    }
    Some(acc)
}

} // verus!
