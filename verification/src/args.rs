//! Validation of the seconds argument of the timed commands.
//!
//! A timed command takes a seconds value that must read as a signed 32-bit
//! integer literal: an optional `+` or `-` sign, then one or more decimal
//! digits, with the value in range.  [`is_number`] decides exactly that,
//! against the grammar written out here as spec functions.

use vstd::prelude::*;

verus! {

/// Whether `c` is a decimal digit.
pub open spec fn is_decimal_digit(c: char) -> bool {
    '0' <= c && c <= '9'
}

/// The numeric value of one decimal digit.
pub open spec fn digit_value(c: char) -> int {
    c as u32 - '0' as u32
}

/// Whether every character of `s` is a decimal digit.
pub open spec fn all_decimal_digits(s: Seq<char>) -> bool {
    forall|i: int| 0 <= i < s.len() ==> is_decimal_digit(#[trigger] s[i])
}

/// The value of a digit string read left to right, most significant first.
pub open spec fn digits_value(s: Seq<char>) -> int
    decreases s.len(),
{
    if s.len() == 0 {
        0
    } else {
        digits_value(s.drop_last()) * 10 + digit_value(s.last())
    }
}

/// Whether `s` is a signed 32-bit integer literal: an optional sign, then at
/// least one decimal digit, and a magnitude of at most `2147483647`
/// (`2147483648` after a minus sign).
pub open spec fn valid_i32_literal(s: Seq<char>) -> bool {
    let signed = s.len() > 0 && (s[0] == '+' || s[0] == '-');
    let body = if signed {
        s.subrange(1, s.len() as int)
    } else {
        s
    };
    let bound: int = if s.len() > 0 && s[0] == '-' {
        2147483648
    } else {
        2147483647
    };
    body.len() > 0 && all_decimal_digits(body) && digits_value(body) <= bound
}

/// A digit-string value, cut off just above the largest magnitude a signed
/// 32-bit literal may carry.  Tracking this instead of the unbounded value
/// keeps the running magnitude in one machine word.
pub open spec fn capped_value(v: int) -> int {
    if v > 2147483649 {
        2147483649
    } else {
        v
    }
}

/// Accept `val` exactly when it reads as a signed 32-bit integer literal.
pub fn is_number(val: &str) -> (r: Result<(), String>)
    ensures
        r is Ok <==> valid_i32_literal(val@),
{
    let len = val.unicode_len();
    if len == 0 {
        return Err("invalid digit found in string".to_string());
    }
    let first = val.get_char(0);
    let negative = first == '-';
    let start: usize = if first == '-' || first == '+' {
        1
    } else {
        0
    };
    if start == len {
        proof {
            assert(val@.subrange(1, len as int).len() == 0);
        }
        return Err("invalid digit found in string".to_string());
    }
    let mut i: usize = start;
    let mut mag: u64 = 0;
    while i < len
        invariant
            start <= i <= len,
            start < len,
            len == val@.len(),
            start == 1 <==> (val@[0] == '+' || val@[0] == '-'),
            start == 0 || start == 1,
            negative <==> val@[0] == '-',
            all_decimal_digits(val@.subrange(start as int, i as int)),
            mag == capped_value(digits_value(val@.subrange(start as int, i as int))),
            mag <= 2147483649,
        decreases len - i,
    {
        let c = val.get_char(i);
        if c < '0' || c > '9' {
            proof {
                let body = if start == 1 {
                    val@.subrange(1, len as int)
                } else {
                    val@
                };
                assert(body[i - start] == val@[i as int]);
                assert(!all_decimal_digits(body));
            }
            return Err("invalid digit found in string".to_string());
        }
        let d: u64 = (c as u32 - 48) as u64;
        proof {
            let prefix = val@.subrange(start as int, i as int);
            let extended = val@.subrange(start as int, i as int + 1);
            assert(extended.drop_last() =~= prefix);
            assert(extended.last() == val@[i as int]);
            assert(digits_value(extended) == digits_value(prefix) * 10 + digit_value(val@[i as int]));
            if digits_value(prefix) > 2147483649 {
                assert(digits_value(prefix) * 10 > 2147483649 * 10);
            }
        }
        mag = mag * 10 + d;
        if mag > 2147483649 {
            mag = 2147483649;
        }
        i = i + 1;
    }
    proof {
        let body = if start == 1 {
            val@.subrange(1, len as int)
        } else {
            val@
        };
        assert(body =~= val@.subrange(start as int, len as int));
        assert(body.len() > 0);
    }
    let bound: u64 = if negative {
        2147483648
    } else {
        2147483647
    };
    if mag <= bound {
        Ok(())
    } else {
        Err("number too large to fit in target type".to_string())
    }
}

} // verus!
