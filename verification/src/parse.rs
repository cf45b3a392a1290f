//! Conversion of wire-format cell strings into native scalar values.
//!
//! Every scalar cell travels as a string.  An integer cell is a base-10
//! signed 64-bit literal (an optional single `+` or `-` sign followed by one
//! or more ASCII digits, the whole string and nothing else); a boolean cell
//! is exactly the literal `true` or `false`, case-sensitively.

use vstd::prelude::*;
use vstd::string::*;

verus! {

/// `c` is one of the ten ASCII digits.
pub open spec fn is_ascii_digit(c: char) -> bool {
    48 <= c as u32 && c as u32 <= 57
}

/// Numeric value of an ASCII digit.
pub open spec fn digit_value(c: char) -> int {
    c as u32 - 48
}

/// Every character of `s` is an ASCII digit.
pub open spec fn all_digits(s: Seq<char>) -> bool {
    forall|i: int| 0 <= i < s.len() ==> is_ascii_digit(#[trigger] s[i])
}

/// Base-10 value of a digit string, most significant digit first.
pub open spec fn digits_val(s: Seq<char>) -> int
    decreases s.len(),
{
    if s.len() == 0 {
        0
    } else {
        digits_val(s.drop_last()) * 10 + digit_value(s.last())
    }
}

/// The digit run of an integer literal: what follows the optional sign.
pub open spec fn digit_run(s: Seq<char>) -> Seq<char> {
    if s.len() > 0 && (s[0] == '-' || s[0] == '+') {
        s.drop_first()
    } else {
        s
    }
}

/// `s` is a well-formed base-10 signed integer literal: an optional single
/// leading sign, then one or more ASCII digits, and nothing else.
pub open spec fn is_int_literal(s: Seq<char>) -> bool {
    digit_run(s).len() > 0 && all_digits(digit_run(s))
}

/// Mathematical value of a well-formed integer literal.
pub open spec fn int_literal_value(s: Seq<char>) -> int {
    if s.len() > 0 && s[0] == '-' {
        -digits_val(digit_run(s))
    } else {
        digits_val(digit_run(s))
    }
}

/// What parsing `s` as a signed 64-bit integer returns: the literal's value
/// when `s` is well formed and the value fits in an `i64`, nothing otherwise.
pub open spec fn parse_i64_spec(s: Seq<char>) -> Option<i64> {
    if is_int_literal(s) && i64::MIN <= int_literal_value(s) <= i64::MAX {
        Some(int_literal_value(s) as i64)
    } else {
        None
    }
}

/// The characters of the literal `true`.
pub open spec fn true_literal() -> Seq<char> {
    seq!['t', 'r', 'u', 'e']
}

/// The characters of the literal `false`.
pub open spec fn false_literal() -> Seq<char> {
    seq!['f', 'a', 'l', 's', 'e']
}

/// What parsing `s` as a boolean returns: only the exact literals `true`
/// and `false` are accepted.
pub open spec fn parse_bool_spec(s: Seq<char>) -> Option<bool> {
    if s == true_literal() {
        Some(true)
    } else if s == false_literal() {
        Some(false)
    } else {
        None
    }
}

proof fn lemma_digits_val_nonneg(s: Seq<char>)
    requires
        all_digits(s),
    ensures
        digits_val(s) >= 0,
    decreases s.len(),
{
    if s.len() > 0 {
        assert forall|i: int| 0 <= i < s.drop_last().len() implies is_ascii_digit(
            #[trigger] s.drop_last()[i],
        ) by {
            assert(s.drop_last()[i] == s[i]);
        }
        lemma_digits_val_nonneg(s.drop_last());
    }
}

/// Appending further digits never shrinks the value: the value of a prefix
/// of a digit string bounds the value of any longer prefix from below.
proof fn lemma_digits_val_prefix_le(s: Seq<char>, i: int, j: int)
    requires
        0 <= i <= j <= s.len(),
        all_digits(s.subrange(0, j)),
    ensures
        digits_val(s.subrange(0, i)) <= digits_val(s.subrange(0, j)),
    decreases j - i,
{
    if i < j {
        let p = s.subrange(0, j - 1);
        assert forall|k: int| 0 <= k < p.len() implies is_ascii_digit(#[trigger] p[k]) by {
            assert(p[k] == s.subrange(0, j)[k]);
        }
        lemma_digits_val_prefix_le(s, i, j - 1);
        lemma_digits_val_nonneg(p);
        assert(s.subrange(0, j).drop_last() =~= p);
        assert(digits_val(s.subrange(0, j)) == digits_val(p) * 10 + digit_value(
            s.subrange(0, j).last(),
        ));
        assert(is_ascii_digit(s.subrange(0, j)[j - 1]));
    }
}

/// Parses `s` as a base-10 signed 64-bit integer, exactly as the wire
/// format demands: an optional sign, one or more digits, nothing else,
/// and a value within the `i64` range.
pub fn parse_i64(s: &str) -> (r: Option<i64>)
    ensures
        r == parse_i64_spec(s@),
{
    let n = s.unicode_len();
    if n == 0 {
        return None;
    }
    let first = s.get_char(0);
    let neg = first == '-';
    let has_sign = first == '-' || first == '+';
    let start: usize = if has_sign {
        1
    } else {
        0
    };
    if start == n {
        // a sign alone has an empty digit run
        return None;
    }
    let ghost run = digit_run(s@);
    proof {
        assert(run =~= s@.subrange(start as int, n as int));
    }
    let limit: u128 = if neg {
        9223372036854775808u128
    } else {
        9223372036854775807u128
    };
    let mut acc: u128 = 0;
    let mut i: usize = start;
    while i < n
        invariant
            start <= i <= n,
            n == s@.len(),
            start < n,
            run == digit_run(s@),
            run =~= s@.subrange(start as int, n as int),
            start == (if s@.len() > 0 && (s@[0] == '-' || s@[0] == '+') {
                1int
            } else {
                0int
            }),
            neg == (s@[0] == '-'),
            limit == (if neg {
                9223372036854775808u128
            } else {
                9223372036854775807u128
            }),
            all_digits(run.subrange(0, i - start)),
            acc == digits_val(run.subrange(0, i - start)),
            acc <= limit,
        decreases n - i,
    {
        let c = s.get_char(i);
        proof {
            assert(run[i - start] == s@[i as int]);
        }
        let u = c as u32;
        if u < 48 || u > 57 {
            proof {
                assert(!is_ascii_digit(run[i - start]));
                assert(!all_digits(run));
            }
            return None;
        }
        let d = (u - 48) as u128;
        assert(acc * 10 + d < u128::MAX) by {
            assert(acc <= 9223372036854775808u128);
        }
        let next = acc * 10 + d;
        let ghost pre = run.subrange(0, i - start);
        proof {
            assert(run.subrange(0, i + 1 - start).drop_last() =~= pre);
            assert(run.subrange(0, i + 1 - start).last() == run[i - start]);
        }
        if next > limit {
            proof {
                if is_int_literal(s@) {
                    lemma_digits_val_prefix_le(run, i + 1 - start, run.len() as int);
                    assert(run.subrange(0, run.len() as int) =~= run);
                }
            }
            return None;
        }
        acc = next;
        i = i + 1;
    }
    proof {
        assert(run.subrange(0, i - start) =~= run);
        assert(is_int_literal(s@));
    }
    if neg {
        if acc == 9223372036854775808u128 {
            Some(i64::MIN)
        } else {
            Some(-(acc as i64))
        }
    } else {
        Some(acc as i64)
    }
}

/// Parses `s` as a boolean: exactly the literal `true` or `false`,
/// case-sensitively; anything else is rejected.
pub fn parse_bool(s: &str) -> (r: Option<bool>)
    ensures
        r == parse_bool_spec(s@),
{
    let n = s.unicode_len();
    if n == 4 {
        if s.get_char(0) == 't' && s.get_char(1) == 'r' && s.get_char(2) == 'u' && s.get_char(3)
            == 'e' {
            proof {
                assert(s@ =~= true_literal());
            }
            return Some(true);
        }
        return None;
    }
    if n == 5 {
        if s.get_char(0) == 'f' && s.get_char(1) == 'a' && s.get_char(2) == 'l' && s.get_char(3)
            == 's' && s.get_char(4) == 'e' {
            proof {
                assert(s@ =~= false_literal());
            }
            return Some(false);
        }
        return None;
    }
    None
}

} // verus!
