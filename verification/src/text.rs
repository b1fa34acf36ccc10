//! Small verified text helpers: character-wise string equality and parsing
//! a decimal integer, as the dispatcher needs for command arguments.

use vstd::prelude::*;
use vstd::string::StrSliceExecFns;

verus! {

/// Whether `c` is a decimal digit.
pub open spec fn is_dec_digit(c: char) -> bool {
    48 <= c as u32 && c as u32 <= 57
}

/// The value of one decimal digit.
pub open spec fn digit_val(c: char) -> int {
    c as u32 - 48
}

/// Whether every character of `s` is a decimal digit.
pub open spec fn all_dec_digits(s: Seq<char>) -> bool {
    forall|i: int| 0 <= i < s.len() ==> is_dec_digit(s[i])
}

/// The number written by a sequence of decimal digits, most significant
/// first.  An empty sequence counts as 0.
pub open spec fn digits_val(s: Seq<char>) -> int
    decreases s.len(),
{
    if s.len() == 0 {
        0
    } else {
        digits_val(s.drop_last()) * 10 + digit_val(s.last())
    }
}

/// Whether `s` is a decimal integer: an optional leading sign, minus or
/// plus, then at least one digit.
pub open spec fn is_int_str(s: Seq<char>) -> bool {
    if s.len() > 0 && (s[0] == '-' || s[0] == '+') {
        s.len() >= 2 && all_dec_digits(s.subrange(1, s.len() as int))
    } else {
        s.len() >= 1 && all_dec_digits(s)
    }
}

/// The value of a decimal integer string.
pub open spec fn int_str_val(s: Seq<char>) -> int {
    if s.len() > 0 && s[0] == '-' {
        -digits_val(s.subrange(1, s.len() as int))
    } else if s.len() > 0 && s[0] == '+' {
        digits_val(s.subrange(1, s.len() as int))
    } else {
        digits_val(s)
    }
}

/// A digit sequence names a non-negative number.
proof fn lemma_digits_val_nonneg(s: Seq<char>)
    requires
        all_dec_digits(s),
    ensures
        digits_val(s) >= 0,
    decreases s.len(),
{
    if s.len() > 0 {
        assert(all_dec_digits(s.drop_last())) by {
            assert(forall|i: int|
                0 <= i < s.len() - 1 ==> s.drop_last()[i] == s[i]);
        }
        lemma_digits_val_nonneg(s.drop_last());
    }
}

/// Dropping digits from the right never increases the value.
proof fn lemma_digits_val_prefix(s: Seq<char>, i: int)
    requires
        all_dec_digits(s),
        0 <= i <= s.len(),
    ensures
        digits_val(s.subrange(0, i)) <= digits_val(s),
    decreases s.len() - i,
{
    if i == s.len() {
        assert(s.subrange(0, i) =~= s);
    } else {
        let t = s.subrange(0, i + 1);
        assert(t.drop_last() =~= s.subrange(0, i));
        assert(all_dec_digits(t)) by {
            assert(forall|j: int| 0 <= j < t.len() ==> t[j] == s[j]);
        }
        lemma_digits_val_nonneg(s.subrange(0, i));
        assert(digits_val(s.subrange(0, i)) <= digits_val(t));
        lemma_digits_val_prefix(s, i + 1);
    }
}

/// Character-wise string equality, stated over the views.
pub fn str_eq(a: &str, b: &str) -> (r: bool)
    ensures
        r == (a@ == b@),
{
    let n = a.unicode_len();
    let m = b.unicode_len();
    if n != m {
        return false;
    }
    let mut i: usize = 0;
    while i < n
        invariant
            0 <= i <= n,
            n == a@.len(),
            n == b@.len(),
            forall|j: int| 0 <= j < i ==> a@[j] == b@[j],
        decreases n - i,
    {
        if a.get_char(i) != b.get_char(i) {
            return false;
        }
        i += 1;
    }
    proof {
        assert(a@ =~= b@);
    }
    true
}

/// Parses a decimal integer with an optional leading sign.  Returns
/// the written value exactly when the string is well formed and the value
/// fits in an `i64`; returns `None` otherwise.
pub fn parse_i64(s: &str) -> (r: Option<i64>)
    ensures
        r matches Some(v) ==> is_int_str(s@) && v as int == int_str_val(s@),
        r is None ==> !is_int_str(s@) || int_str_val(s@) < i64::MIN || int_str_val(s@)
            > i64::MAX,
{
    let n = s.unicode_len();
    if n == 0 {
        return None;
    }
    let c0 = s.get_char(0);
    let neg = c0 == '-';
    let signed = neg || c0 == '+';
    let start: usize = if signed {
        1
    } else {
        0
    };
    if n == start {
        // the string is just a sign
        return None;
    }
    let min_div_10: i64 = -922337203685477580;
    let mut acc: i64 = 0;
    let mut i: usize = start;
    let ghost digits = s@.subrange(start as int, n as int);
    while i < n
        invariant
            start <= i <= n,
            n == s@.len(),
            n > start,
            start == 0 || start == 1,
            neg == (s@[0] == '-'),
            signed == (s@[0] == '-' || s@[0] == '+'),
            start == (if signed { 1int } else { 0int }),
            min_div_10 == -922337203685477580i64,
            digits == s@.subrange(start as int, n as int),
            all_dec_digits(s@.subrange(start as int, i as int)),
            acc <= 0,
            acc as int == -digits_val(s@.subrange(start as int, i as int)),
        decreases n - i,
    {
        let c = s.get_char(i);
        let u = c as u32;
        let ghost pre = s@.subrange(start as int, i as int);
        let ghost cur = s@.subrange(start as int, i as int + 1);
        proof {
            assert(cur.drop_last() =~= pre);
            assert(cur.last() == s@[i as int]);
        }
        if u < 48 || u > 57 {
            // a non-digit inside the digit part: not an integer string
            proof {
                if signed {
                    let body = s@.subrange(1, n as int);
                    assert(body[i - 1] == s@[i as int]);
                    assert(!is_dec_digit(body[i - 1]));
                } else {
                    assert(!is_dec_digit(s@[i as int]));
                }
            }
            return None;
        }
        assert(all_dec_digits(cur)) by {
            assert(forall|j: int| 0 <= j < cur.len() - 1 ==> cur[j] == pre[j]);
        }
        let d = (u - 48) as i64;
        if acc < min_div_10 || acc * 10 < i64::MIN + d {
            // the value written so far already overflows an i64
            proof {
                assert(digits_val(cur) == digits_val(pre) * 10 + digit_val(s@[i as int]));
                assert(digits_val(cur) > 9223372036854775808);
                lemma_int_str_overflow(s@, start as int, i as int + 1);
            }
            return None;
        }
        acc = acc * 10 - d;
        i += 1;
    }
    proof {
        assert(s@.subrange(start as int, i as int) =~= digits);
        if signed {
            assert(s@.subrange(1, n as int) =~= digits);
        } else {
            assert(s@.subrange(0, n as int) =~= s@);
        }
    }
    if neg {
        Some(acc)
    } else {
        if acc == i64::MIN {
            // the value is one past i64::MAX
            proof {
                lemma_digits_val_nonneg(digits);
            }
            None
        } else {
            Some(-acc)
        }
    }
}

/// When the digits seen so far already name a number past `i64`'s range,
/// the whole string does too.
proof fn lemma_int_str_overflow(s: Seq<char>, start: int, j: int)
    requires
        0 <= start <= 1,
        start == 1 ==> s.len() > 0 && (s[0] == '-' || s[0] == '+'),
        start == 0 ==> s.len() == 0 || !(s[0] == '-' || s[0] == '+'),
        start <= j <= s.len(),
        all_dec_digits(s.subrange(start, j)),
        digits_val(s.subrange(start, j)) > 9223372036854775808,
    ensures
        is_int_str(s) ==> int_str_val(s) < i64::MIN || int_str_val(s) > i64::MAX,
{
    if is_int_str(s) {
        let digits = s.subrange(start, s.len() as int);
        assert(all_dec_digits(digits)) by {
            if start == 1 {
                assert(digits =~= s.subrange(1, s.len() as int));
            } else {
                assert(digits =~= s);
            }
        }
        assert(digits.subrange(0, j - start) =~= s.subrange(start, j));
        lemma_digits_val_prefix(digits, j - start);
        assert(digits_val(digits) > 9223372036854775808);
        if s[0] == '-' {
            assert(int_str_val(s) == -digits_val(digits));
        } else if s[0] == '+' {
            assert(int_str_val(s) == digits_val(digits));
        } else {
            assert(s.subrange(0, s.len() as int) =~= s);
            assert(int_str_val(s) == digits_val(digits));
        }
    }
}

} // verus!
