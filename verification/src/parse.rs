//! Validation of the viewport dimension arguments.
//!
//! A dimension argument must be a decimal unsigned integer (an optional `+`
//! sign, then digits, fitting `u32`) of at least 100.

use vstd::prelude::*;

verus! {

pub open spec fn is_digit(c: char) -> bool {
    48 <= c as u32 <= 57
}

pub open spec fn digit_val(c: char) -> int {
    c as u32 - 48
}

/// The numeric value of a digit string, most significant first.
pub open spec fn digits_value(s: Seq<char>) -> int
    decreases s.len(),
{
    if s.len() == 0 {
        0
    } else {
        digits_value(s.drop_last()) * 10 + digit_val(s.last())
    }
}

pub open spec fn all_digits(s: Seq<char>) -> bool {
    forall|i: int| 0 <= i < s.len() ==> is_digit(#[trigger] s[i])
}

/// The string with an optional leading `+` removed.
pub open spec fn numeral_part(s: Seq<char>) -> Seq<char> {
    if s.len() > 0 && s[0] == '+' {
        s.drop_first()
    } else {
        s
    }
}

/// The strings accepted as a `u32`.
pub open spec fn parses_as_u32(s: Seq<char>) -> bool {
    &&& numeral_part(s).len() > 0
    &&& all_digits(numeral_part(s))
    &&& digits_value(numeral_part(s)) <= u32::MAX
}

/// The value of a digit string is non-negative and grows (weakly) with each
/// appended digit.
proof fn lemma_digits_value_nonneg(s: Seq<char>)
    requires
        all_digits(s),
    ensures
        digits_value(s) >= 0,
    decreases s.len(),
{
    if s.len() > 0 {
        assert(all_digits(s.drop_last())) by {
            assert(forall|i: int|
                0 <= i < s.len() - 1 ==> s.drop_last()[i] == #[trigger] s[i]);
        }
        lemma_digits_value_nonneg(s.drop_last());
    }
}

/// Accept a decimal string of value at least 100; reject anything that is
/// not an unsigned decimal within `u32`, or below 100, with the matching
/// message.
pub fn is_uint_and_geq_100(s: String) -> (r: Result<(), String>)
    ensures
        r is Ok <==> parses_as_u32(s@) && digits_value(numeral_part(s@)) >= 100,
        r matches Err(e) ==> e@ == if parses_as_u32(s@) {
            "Number has to be at least 100"@
        } else {
            "Not a positive number"@
        },
{
    let st = s.as_str();
    let len = st.unicode_len();
    let start: usize = if len > 0 && st.get_char(0) == '+' {
        1
    } else {
        0
    };
    let ghost t = numeral_part(s@);
    proof {
        assert(t =~= s@.subrange(start as int, len as int));
    }
    if len == start {
        return Result::Err("Not a positive number".to_owned());
    }
    let mut acc: u64 = 0;
    let mut overflow: bool = false;
    let mut i: usize = start;
    while i < len
        invariant
            start <= i <= len,
            st@ == s@,
            len == s@.len(),
            t == numeral_part(s@),
            t =~= s@.subrange(start as int, len as int),
            all_digits(t.subrange(0, i - start)),
            !overflow ==> acc == digits_value(t.subrange(0, i - start)) && acc <= u32::MAX,
            overflow ==> digits_value(t.subrange(0, i - start)) > u32::MAX,
        decreases len - i,
    {
        let c = st.get_char(i);
        let code = c as u32;
        proof {
            assert(t[i - start] == s@.subrange(start as int, len as int)[i - start]);
            assert(t[i - start] == s@[i as int]);
        }
        if code < 48 || code > 57 {
            proof {
                assert(!is_digit(t[i - start]));
                assert(t == numeral_part(s@));
                assert(!all_digits(numeral_part(s@)));
            }
            return Result::Err("Not a positive number".to_owned());
        }
        let d = (code - 48) as u64;
        let ghost pre = t.subrange(0, i - start);
        let ghost cur = t.subrange(0, i + 1 - start);
        proof {
            assert(cur.drop_last() =~= pre);
            assert(cur.last() == t[i - start]);
            assert(t[i - start] == s@[i as int]);
            assert(all_digits(cur)) by {
                assert(forall|j: int| 0 <= j < pre.len() ==> cur[j] == #[trigger] pre[j]);
            }
            lemma_digits_value_nonneg(pre);
        }
        if overflow {
            proof {
                assert(digits_value(cur) == digits_value(pre) * 10 + digit_val(cur.last()));
                assert(digits_value(pre) * 10 > u32::MAX * 10) by (nonlinear_arith)
                    requires digits_value(pre) > u32::MAX;
            }
        } else {
            let next = acc * 10 + d;
            if next > 0xffff_ffff {
                overflow = true;
            } else {
                acc = next;
            }
        }
        i = i + 1;
    }
    proof {
        assert(t.subrange(0, len - start) =~= t);
    }
    if overflow {
        return Result::Err("Not a positive number".to_owned());
    }
    if acc >= 100 {
        Result::Ok(())
    } else {
        Result::Err("Number has to be at least 100".to_owned())
    }
}

} // verus!
