//! Decimal numbers as text: rendering `u64` values and parsing unsigned
//! amounts the way `str::parse::<u64>` does (an optional leading `+`, then
//! one or more ASCII digits, value within range).

use vstd::prelude::*;
use vstd::string::StrSliceExecFns;
use crate::text::push_char;

verus! {

pub open spec fn is_digit_char(c: char) -> bool {
    48 <= (c as u32) && (c as u32) <= 57
}

pub open spec fn digit_val(c: char) -> nat {
    ((c as u32) - 48) as nat
}

pub open spec fn digit_char(d: nat) -> char {
    if d == 0 {
        '0'
    } else if d == 1 {
        '1'
    } else if d == 2 {
        '2'
    } else if d == 3 {
        '3'
    } else if d == 4 {
        '4'
    } else if d == 5 {
        '5'
    } else if d == 6 {
        '6'
    } else if d == 7 {
        '7'
    } else if d == 8 {
        '8'
    } else {
        '9'
    }
}

/// The usual decimal rendering of a natural number, most significant digit
/// first, no leading zeros except for zero itself.
pub open spec fn spec_dec(n: nat) -> Seq<char>
    decreases n,
{
    if n < 10 {
        seq![digit_char(n)]
    } else {
        spec_dec(n / 10).push(digit_char(n % 10))
    }
}

/// The value of a digit string, most significant digit first.
pub open spec fn digits_value(s: Seq<char>) -> nat
    decreases s.len(),
{
    if s.len() == 0 {
        0
    } else {
        digits_value(s.drop_last()) * 10 + digit_val(s.last())
    }
}

pub open spec fn all_digits(s: Seq<char>) -> bool {
    forall|i: int| 0 <= i < s.len() ==> is_digit_char(s[i])
}

/// What `str::parse::<u64>` accepts: an optional `+` sign, then at least one
/// digit, and a value that fits in a `u64`.
pub open spec fn spec_parse_u64(s: Seq<char>) -> Option<u64> {
    let digits = if s.len() > 0 && s[0] == '+' {
        s.skip(1)
    } else {
        s
    };
    if digits.len() > 0 && all_digits(digits) && digits_value(digits) <= u64::MAX {
        Some(digits_value(digits) as u64)
    } else {
        None
    }
}

fn digit_to_char(d: u64) -> (c: char)
    requires
        d < 10,
    ensures
        c == digit_char(d as nat),
{
    if d == 0 {
        '0'
    } else if d == 1 {
        '1'
    } else if d == 2 {
        '2'
    } else if d == 3 {
        '3'
    } else if d == 4 {
        '4'
    } else if d == 5 {
        '5'
    } else if d == 6 {
        '6'
    } else if d == 7 {
        '7'
    } else if d == 8 {
        '8'
    } else {
        '9'
    }
}

/// Renders a `u64` in decimal.
pub fn u64_to_string(n: u64) -> (r: String)
    ensures
        r@ == spec_dec(n as nat),
    decreases n,
{
    if n < 10 {
        let mut s = String::new();
        push_char(&mut s, digit_to_char(n));
        proof {
            assert(s@ =~= spec_dec(n as nat));
        }
        s
    } else {
        let mut s = u64_to_string(n / 10);
        push_char(&mut s, digit_to_char(n % 10));
        s
    }
}

/// Extending a digit string by one digit multiplies its value by ten.
proof fn lemma_digits_value_take_step(s: Seq<char>, i: int)
    requires
        0 <= i < s.len(),
    ensures
        digits_value(s.take(i + 1)) == digits_value(s.take(i)) * 10 + digit_val(s[i]),
{
    assert(s.take(i + 1).drop_last() =~= s.take(i));
    assert(s.take(i + 1).last() == s[i]);
}

/// The value of a digit string only grows as the string is extended.
proof fn lemma_digits_value_prefix_le(s: Seq<char>, i: int)
    requires
        0 <= i <= s.len(),
    ensures
        digits_value(s.take(i)) <= digits_value(s),
    decreases s.len() - i,
{
    if i == s.len() {
        assert(s.take(i) =~= s);
    } else {
        lemma_digits_value_take_step(s, i);
        lemma_digits_value_prefix_le(s, i + 1);
    }
}

/// Parses an unsigned decimal amount exactly as `str::parse::<u64>` would.
pub fn parse_u64(s: &str) -> (r: Option<u64>)
    ensures
        r == spec_parse_u64(s@),
{
    let len = s.unicode_len();
    let start: usize = if len > 0 && s.get_char(0) == '+' {
        1
    } else {
        0
    };
    let ghost digits: Seq<char> = if s@.len() > 0 && s@[0] == '+' {
        s@.skip(1)
    } else {
        s@
    };
    proof {
        assert(digits =~= s@.subrange(start as int, len as int));
    }
    if start == len {
        return None;
    }
    let mut val: u64 = 0;
    let mut i: usize = start;
    while i < len
        invariant
            start <= i <= len,
            len == s@.len(),
            start == 0 || start == 1,
            (start == 1) == (s@.len() > 0 && s@[0] == '+'),
            digits =~= s@.subrange(start as int, len as int),
            all_digits(digits.take(i - start)),
            val == digits_value(digits.take(i - start)),
        decreases len - i,
    {
        proof {
            if start == 1 {
                assert(digits =~= s@.skip(1));
            } else {
                assert(digits =~= s@);
            }
        }
        let c = s.get_char(i);
        let u = c as u32;
        if !(48 <= u && u <= 57) {
            proof {
                assert(digits.len() == len - start);
                assert(digits[i - start] == s@[i as int]);
                assert(!is_digit_char(digits[i - start]));
                assert(!all_digits(digits));
            }
            return None;
        }
        let d: u64 = (u - 48) as u64;
        proof {
            assert(digits[i - start] == s@[i as int]);
            assert(digit_val(digits[i - start]) == d);
            lemma_digits_value_take_step(digits, i - start);
            assert(digits.take(i - start + 1).drop_last() =~= digits.take(i - start));
        }
        if val > (u64::MAX - d) / 10 {
            proof {
                let m = u64::MAX as nat;
                let q = (m - d) / 10;
                let rem = (m - d) % 10;
                vstd::arithmetic::div_mod::lemma_fundamental_div_mod((m - d) as int, 10);
                vstd::arithmetic::div_mod::lemma_mod_division_less_than_divisor((m - d) as int, 10);
                assert(rem < 10);
                assert(val * 10 >= (q + 1) * 10) by (nonlinear_arith)
                    requires
                        val >= q + 1,
                ;
                assert((q + 1) * 10 == q * 10 + 10);
                assert(digits_value(digits.take(i - start + 1)) == val * 10 + d);
                assert(digits_value(digits.take(i - start + 1)) > m);
                lemma_digits_value_prefix_le(digits, i - start + 1);
                assert(digits_value(digits) > m);
            }
            return None;
        }
        proof {
            assert(val * 10 + d <= u64::MAX) by (nonlinear_arith)
                requires
                    d < 10,
                    val <= (u64::MAX - d) / 10,
                    (u64::MAX - d) / 10 * 10 <= u64::MAX - d,
            ;
            vstd::arithmetic::div_mod::lemma_fundamental_div_mod((u64::MAX - d) as int, 10);
        }
        val = val * 10 + d;
        i = i + 1;
    }
    proof {
        assert(digits.take(i - start) =~= digits);
    }
    Some(val)
}

} // verus!
