//! Parsing of the digit strings typed into the settings form.
//!
//! A string parses as a non-negative integer exactly when it is non-empty,
//! consists of decimal digits only, and its value fits in a `u64`.
use vstd::prelude::*;

verus! {

pub open spec fn spec_is_digit(c: char) -> bool {
    '0' as u32 <= c as u32 <= '9' as u32
}

pub open spec fn spec_digit_value(c: char) -> int {
    c as u32 - '0' as u32
}

/// The number written by a sequence of decimal digits (most significant
/// first), as an unbounded integer.
pub open spec fn spec_digits_value(s: Seq<char>) -> int
    decreases s.len(),
{
    if s.len() == 0 {
        0int
    } else {
        spec_digits_value(s.drop_last()) * 10 + spec_digit_value(s.last())
    }
}

pub open spec fn spec_all_digits(s: Seq<char>) -> bool {
    forall|i: int| 0 <= i < s.len() ==> spec_is_digit(#[trigger] s[i])
}

/// What parsing a field yields: the written number, if the text is a
/// non-empty, all-digit string whose value fits in a `u64`.
pub open spec fn spec_parse_u64(s: Seq<char>) -> Option<u64> {
    if s.len() > 0 && spec_all_digits(s) && spec_digits_value(s) <= u64::MAX {
        Some(spec_digits_value(s) as u64)
    } else {
        None
    }
}

pub proof fn lemma_digits_value_nonneg(s: Seq<char>)
    requires
        spec_all_digits(s),
    ensures
        spec_digits_value(s) >= 0,
    decreases s.len(),
{
    if s.len() > 0 {
        lemma_digits_value_nonneg(s.drop_last());
    }
}

/// Appending digits never shrinks the written number, so once a prefix is
/// already too large for a `u64` the whole string is too.
proof fn lemma_digits_value_prefix_monotone(s: Seq<char>, i: int)
    requires
        spec_all_digits(s),
        0 <= i <= s.len(),
    ensures
        spec_digits_value(s.subrange(0, i)) <= spec_digits_value(s),
    decreases s.len() - i,
{
    if i < s.len() {
        lemma_digits_value_prefix_monotone(s, i + 1);
        let prefix = s.subrange(0, i);
        let longer = s.subrange(0, i + 1);
        assert(longer.drop_last() =~= prefix);
        lemma_digits_value_nonneg(prefix);
    } else {
        assert(s.subrange(0, i) =~= s);
    }
}

/// Parse a decimal `u64`, exactly as `spec_parse_u64` describes.
pub fn parse_u64(s: &str) -> (parsed: Option<u64>)
    ensures
        parsed == spec_parse_u64(s@),
{
    let len = s.unicode_len();
    if len == 0 {
        return None;
    }
    let mut value: u64 = 0;
    let mut i: usize = 0;
    while i < len
        invariant
            0 <= i <= len,
            len == s@.len(),
            spec_all_digits(s@.subrange(0, i as int)),
            value == spec_digits_value(s@.subrange(0, i as int)),
        decreases len - i,
    {
        let c = s.get_char(i);
        let code = c as u32;
        if code < '0' as u32 || code > '9' as u32 {
            assert(!spec_is_digit(s@[i as int]));
            return None;
        }
        let d = (code - '0' as u32) as u64;
        assert(d == spec_digit_value(s@[i as int]));
        proof {
            assert(s@.subrange(0, i + 1).drop_last() =~= s@.subrange(0, i as int));
        }
        if value > (u64::MAX - d) / 10 {
            // The digits read so far already overflow a u64; the rest of the
            // string can only make the written number larger.
            proof {
                let prefix = s@.subrange(0, i + 1);
                assert(spec_digits_value(prefix) == value * 10 + d);
                assert(value * 10 + d > u64::MAX) by (nonlinear_arith)
                    requires
                        value > (u64::MAX - d) / 10,
                        0 <= d <= 9,
                {}
                if spec_all_digits(s@) {
                    lemma_digits_value_prefix_monotone(s@, i + 1);
                }
            }
            return None;
        }
        proof {
            assert(value * 10 + d <= u64::MAX) by (nonlinear_arith)
                requires
                    value <= (u64::MAX - d) / 10,
                    0 <= d <= 9,
            {}
        }
        value = value * 10 + d;
        i = i + 1;
    }
    proof {
        assert(s@.subrange(0, len as int) =~= s@);
    }
    Some(value)
}

} // verus!
