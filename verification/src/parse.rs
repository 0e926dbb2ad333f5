//! Parsing the integer contents of a brightness control file.
//!
//! A brightness file holds a decimal integer, usually followed by a newline.
//! The daemon reads the whole file, strips trailing newlines and parses the
//! rest as a `u32` (an optional leading `+` is accepted, as Rust's integer
//! parsing does).

use vstd::prelude::*;
use crate::errors::KbError;

verus! {

/// Is `c` a decimal digit?
pub open spec fn is_digit(c: char) -> bool {
    48 <= c as int && c as int <= 57
}

/// Numeric value of the digit `c`.
pub open spec fn digit_val(c: char) -> int {
    c as int - 48
}

/// Every character of `s` is a decimal digit.
pub open spec fn all_digits(s: Seq<char>) -> bool {
    forall|i: int| 0 <= i < s.len() ==> is_digit(#[trigger] s[i])
}

/// Value of the digit string `s`, most significant digit first.
pub open spec fn digits_val(s: Seq<char>) -> int
    decreases s.len(),
{
    if s.len() == 0 {
        0
    } else {
        digits_val(s.drop_last()) * 10 + digit_val(s.last())
    }
}

/// `s` without its trailing newlines.
pub open spec fn trim_trailing_newlines(s: Seq<char>) -> Seq<char>
    decreases s.len(),
{
    if s.len() > 0 && s.last() == '\n' {
        trim_trailing_newlines(s.drop_last())
    } else {
        s
    }
}

/// `s` without one optional leading `+` sign.
pub open spec fn strip_plus(s: Seq<char>) -> Seq<char> {
    if s.len() > 0 && s[0] == '+' {
        s.drop_first()
    } else {
        s
    }
}

/// Does the file content `s` hold a valid `u32`, after trimming?
pub open spec fn led_value_ok(s: Seq<char>) -> bool {
    let t = strip_plus(trim_trailing_newlines(s));
    t.len() > 0 && all_digits(t) && digits_val(t) <= u32::MAX
}

/// The integer held by the file content `s` (meaningful when `led_value_ok`).
pub open spec fn led_value(s: Seq<char>) -> int {
    digits_val(strip_plus(trim_trailing_newlines(s)))
}

/// A digit string has a nonnegative value.
proof fn lemma_digits_val_nonneg(s: Seq<char>)
    requires
        all_digits(s),
    ensures
        digits_val(s) >= 0,
    decreases s.len(),
{
    if s.len() > 0 {
        assert(all_digits(s.drop_last()));
        lemma_digits_val_nonneg(s.drop_last());
    }
}

/// A prefix of a digit string has a value no greater than the whole string.
proof fn lemma_digits_val_take_le(s: Seq<char>, i: int)
    requires
        all_digits(s),
        0 <= i <= s.len(),
    ensures
        digits_val(s.take(i)) <= digits_val(s),
    decreases s.len(),
{
    if i < s.len() {
        assert(all_digits(s.drop_last()));
        assert(s.take(i) =~= s.drop_last().take(i));
        lemma_digits_val_take_le(s.drop_last(), i);
        lemma_digits_val_nonneg(s.drop_last());
        assert(digits_val(s.drop_last()) * 10 >= digits_val(s.drop_last())) by (nonlinear_arith)
            requires
                digits_val(s.drop_last()) >= 0,
        ;
    } else {
        assert(s.take(i) =~= s);
    }
}

/// Parse the contents of a brightness file: strip trailing newlines, accept
/// an optional leading `+`, then a nonempty run of decimal digits whose value
/// fits in a `u32`. Anything else is a parse error.
pub fn parse_led_value(s: &str) -> (r: Result<u32, KbError>)
    ensures
        led_value_ok(s@) ==> r == Ok::<u32, KbError>(led_value(s@) as u32),
        !led_value_ok(s@) ==> r == Err::<u32, KbError>(KbError::LedParse),
{
    let n: usize = s.unicode_len();
    proof {
        assert(s@.take(n as int) =~= s@);
    }

    // Index just past the last non-newline character.
    let mut end: usize = n;
    loop
        invariant
            end <= n,
            n == s@.len(),
            trim_trailing_newlines(s@) == trim_trailing_newlines(s@.take(end as int)),
        ensures
            end <= n,
            n == s@.len(),
            trim_trailing_newlines(s@) == s@.take(end as int),
        decreases end,
    {
        if end == 0 {
            proof {
                assert(s@.take(0).len() == 0);
            }
            break;
        }
        let c = s.get_char(end - 1);
        if c != '\n' {
            proof {
                assert(s@.take(end as int).last() == s@[end - 1]);
            }
            break;
        }
        proof {
            assert(s@.take(end as int).last() == s@[end - 1]);
            assert(s@.take(end as int).drop_last() =~= s@.take(end - 1));
        }
        end = end - 1;
    }
    let ghost t_all: Seq<char> = trim_trailing_newlines(s@);

    // Skip one optional leading '+'.
    let start: usize = if end > 0 && s.get_char(0) == '+' {
        1
    } else {
        0
    };
    let ghost t: Seq<char> = strip_plus(t_all);
    proof {
        if end > 0 {
            assert(t_all[0] == s@[0]);
        }
        if end > 0 && s@[0] == '+' {
            assert(t =~= s@.subrange(1, end as int));
        } else {
            assert(t =~= s@.subrange(0, end as int));
        }
    }

    if start >= end {
        // Empty after trimming: not an integer.
        proof {
            assert(t.len() == 0);
        }
        return Err(KbError::LedParse);
    }

    let mut acc: u64 = 0;
    let mut i: usize = start;
    while i < end
        invariant
            start <= i <= end <= n,
            n == s@.len(),
            start < end,
            t == s@.subrange(start as int, end as int),
            t == strip_plus(trim_trailing_newlines(s@)),
            all_digits(t.take(i - start)),
            acc == digits_val(t.take(i - start)),
            acc <= u32::MAX,
        decreases end - i,
    {
        let c = s.get_char(i);
        proof {
            assert(t[i - start] == s@[i as int]);
        }
        let cu: u32 = c as u32;
        if !(48 <= cu && cu <= 57) {
            proof {
                assert(!is_digit(t[i - start]));
            }
            return Err(KbError::LedParse);
        }
        let d: u64 = (cu - 48) as u64;
        proof {
            assert(t.take(i + 1 - start).drop_last() =~= t.take(i - start));
            assert(t.take(i + 1 - start).last() == t[i - start]);
        }
        acc = acc * 10 + d;
        i = i + 1;
        if acc > u32::MAX as u64 {
            // The digits seen so far already exceed u32::MAX, so the whole
            // string does too.
            proof {
                if all_digits(t) {
                    lemma_digits_val_take_le(t, i - start);
                }
            }
            return Err(KbError::LedParse);
        }
    }
    proof {
        assert(t.take(end - start) =~= t);
    }
    Ok(acc as u32)
}

} // verus!
