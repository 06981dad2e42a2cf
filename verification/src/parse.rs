//! Decimal parsing for the numeric search filter: an optional sign, one or
//! more digits, and a value within `i32` range, exactly as the standard
//! integer syntax accepts it.

use vstd::prelude::*;
use crate::error::Error;
use crate::text::str_to_chars;

verus! {

/// A decimal digit.
pub open spec fn is_digit_char(c: char) -> bool {
    0x30 <= c as u32 && c as u32 <= 0x39
}

/// The value of a decimal digit.
pub open spec fn digit_val(c: char) -> int {
    c as u32 - 0x30
}

/// Every character is a decimal digit.
pub open spec fn all_digits(s: Seq<char>) -> bool {
    forall|i: int| 0 <= i < s.len() ==> is_digit_char(s[i])
}

/// The value of a digit sequence read in base ten.
pub open spec fn digits_value(s: Seq<char>) -> int
    decreases s.len(),
{
    if s.len() == 0 {
        0
    } else {
        digits_value(s.drop_last()) * 10 + digit_val(s.last())
    }
}

/// The text after its optional leading sign.
pub open spec fn int_body(s: Seq<char>) -> Seq<char> {
    if s.len() > 0 && (s[0] == '+' || s[0] == '-') {
        s.drop_first()
    } else {
        s
    }
}

/// Whether the text carries a leading minus sign.
pub open spec fn int_negative(s: Seq<char>) -> bool {
    s.len() > 0 && s[0] == '-'
}

/// The signed value the text denotes.
pub open spec fn int_value(s: Seq<char>) -> int {
    if int_negative(s) {
        -digits_value(int_body(s))
    } else {
        digits_value(int_body(s))
    }
}

/// The texts that parse as an `i32`: an optional sign, at least one digit,
/// nothing else, and a value within range.
pub open spec fn is_i32_text(s: Seq<char>) -> bool {
    &&& int_body(s).len() > 0
    &&& all_digits(int_body(s))
    &&& i32::MIN <= int_value(s) <= i32::MAX
}

/// A digit sequence never denotes a negative value.
proof fn lemma_digits_value_nonneg(s: Seq<char>)
    requires
        all_digits(s),
    ensures
        digits_value(s) >= 0,
    decreases s.len(),
{
    if s.len() > 0 {
        assert forall|i: int| 0 <= i < s.drop_last().len() implies is_digit_char(
            s.drop_last()[i],
        ) by {
            assert(s.drop_last()[i] == s[i]);
        }
        lemma_digits_value_nonneg(s.drop_last());
        assert(is_digit_char(s[s.len() - 1]));
    }
}

/// Reading further digits never shrinks the value.
proof fn lemma_digits_prefix_le(s: Seq<char>, k: int)
    requires
        all_digits(s),
        0 <= k <= s.len(),
    ensures
        digits_value(s.take(k)) <= digits_value(s),
    decreases s.len() - k,
{
    if k == s.len() {
        assert(s.take(k) =~= s);
    } else {
        lemma_digits_prefix_le(s, k + 1);
        assert(s.take(k + 1).drop_last() =~= s.take(k));
        assert(s.take(k + 1).last() == s[k]);
        assert forall|i: int| 0 <= i < s.take(k).len() implies is_digit_char(s.take(k)[i]) by {
            assert(s.take(k)[i] == s[i]);
        }
        lemma_digits_value_nonneg(s.take(k));
        assert(is_digit_char(s[k]));
        assert(digits_value(s.take(k + 1)) == digits_value(s.take(k)) * 10 + digit_val(s[k]));
    }
}

/// Parses a decimal `i32`. Returns the denoted value exactly when the text
/// is well formed and in range, and `InvalidParam` otherwise.
pub fn parse_i32(s: &str) -> (r: Result<i32, Error>)
    ensures
        is_i32_text(s@) ==> (r matches Ok(v) && v as int == int_value(s@)),
        !is_i32_text(s@) ==> r == Err::<i32, Error>(Error::InvalidParam),
{
    let cs = str_to_chars(s);
    let n = cs.len();
    let mut body_start: usize = 0;
    let mut neg = false;
    if n > 0 && (cs[0] == '+' || cs[0] == '-') {
        neg = cs[0] == '-';
        body_start = 1;
    }
    proof {
        if body_start == 1 {
            assert(int_body(s@) =~= cs@.skip(1));
        } else {
            assert(int_body(s@) =~= cs@.skip(0));
        }
        assert(int_body(s@) == cs@.skip(body_start as int));
        assert(neg == int_negative(s@));
    }
    if body_start == n {
        proof {
            assert(int_body(s@).len() == 0);
        }
        return Err(Error::InvalidParam);
    }
    let mut i: usize = body_start;
    let mut acc: i64 = 0;
    proof {
        assert(cs@.subrange(body_start as int, body_start as int) =~= Seq::<char>::empty());
    }
    while i < n
        invariant
            body_start <= i <= n,
            body_start < n,
            n == cs@.len(),
            cs@ == s@,
            neg == int_negative(s@),
            int_body(s@) == cs@.skip(body_start as int),
            all_digits(cs@.subrange(body_start as int, i as int)),
            acc == digits_value(cs@.subrange(body_start as int, i as int)),
            0 <= acc <= 2147483648,
        decreases n - i,
    {
        let c = cs[i];
        let u = c as u32;
        if !(0x30 <= u && u <= 0x39) {
            proof {
                assert(int_body(s@)[i - body_start] == cs@[i as int]);
                assert(!is_digit_char(int_body(s@)[i - body_start]));
                assert(!all_digits(int_body(s@)));
            }
            return Err(Error::InvalidParam);
        }
        let d = (u - 0x30) as i64;
        acc = acc * 10 + d;
        i = i + 1;
        proof {
            let pre = cs@.subrange(body_start as int, i as int);
            assert(pre.drop_last() =~= cs@.subrange(body_start as int, i as int - 1));
            assert(pre.last() == cs@[i as int - 1]);
            assert forall|j: int| 0 <= j < pre.len() implies is_digit_char(pre[j]) by {
                assert(pre[j] == cs@[body_start + j]);
            }
            assert(acc == digits_value(pre));
        }
        if acc > 2147483648 {
            proof {
                if is_i32_text(s@) {
                    let body = int_body(s@);
                    lemma_digits_prefix_le(body, i - body_start);
                    assert(body.take(i - body_start) =~= cs@.subrange(
                        body_start as int,
                        i as int,
                    ));
                    assert(digits_value(body) > 2147483648);
                    assert(false);
                }
            }
            return Err(Error::InvalidParam);
        }
    }
    proof {
        assert(cs@.subrange(body_start as int, n as int) =~= cs@.skip(body_start as int));
        assert(acc == digits_value(int_body(s@)));
        assert(all_digits(int_body(s@)));
        assert(int_body(s@).len() > 0);
    }
    if neg {
        let v = (-acc) as i32;
        proof {
            assert(int_value(s@) == -acc);
            assert(i32::MIN <= int_value(s@) <= i32::MAX);
            assert(is_i32_text(s@));
            assert(v as int == int_value(s@));
        }
        Ok(v)
    } else if acc <= 2147483647 {
        let v = acc as i32;
        proof {
            assert(int_value(s@) == acc);
            assert(is_i32_text(s@));
            assert(v as int == int_value(s@));
        }
        Ok(v)
    } else {
        proof {
            assert(int_value(s@) == acc);
            assert(int_value(s@) > i32::MAX);
            assert(!is_i32_text(s@));
        }
        Err(Error::InvalidParam)
    }
}

} // verus!
