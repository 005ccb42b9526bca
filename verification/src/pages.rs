//! Decimal parsing of the `page` parameter.
//!
//! `spec_parse_usize` says exactly which strings `str::parse::<usize>`
//! accepts — an optional leading `+` sign, then one or more ASCII digits,
//! with a value that fits in `usize` — and `parse_page_or_one` implements
//! that grammar, substituting 1 for anything else, as the search endpoint
//! does for a missing or unparsable page number.

use vstd::prelude::*;

verus! {

/// A character is an ASCII decimal digit.
pub open spec fn is_digit(c: char) -> bool {
    48 <= c as u32 <= 57
}

/// The numeric value of an ASCII decimal digit.
pub open spec fn digit_val(c: char) -> int {
    c as u32 - 48
}

/// Every character of the sequence is an ASCII decimal digit.
pub open spec fn all_digits(s: Seq<char>) -> bool {
    forall|i: int| 0 <= i < s.len() ==> is_digit(s[i])
}

/// The value of a sequence of decimal digits, most significant first.
pub open spec fn digits_val(s: Seq<char>) -> int
    decreases s.len(),
{
    if s.len() == 0 {
        0
    } else {
        digits_val(s.drop_last()) * 10 + digit_val(s.last())
    }
}

/// The digit part of a numeral: the whole string, less a single leading
/// `+` sign if one is present.
pub open spec fn spec_digits_part(s: Seq<char>) -> Seq<char> {
    if s.len() > 0 && s[0] == '+' {
        s.skip(1)
    } else {
        s
    }
}

/// The value an unsigned decimal numeral denotes: its digit part must be
/// nonempty, all digits, and denote a value that fits in `usize`.
pub open spec fn spec_parse_usize(s: Seq<char>) -> Option<int> {
    let digits = spec_digits_part(s);
    if digits.len() > 0 && all_digits(digits) && digits_val(digits) <= usize::MAX {
        Some(digits_val(digits))
    } else {
        None
    }
}

/// A digit sequence never denotes a negative value.
proof fn lemma_digits_val_nonneg(s: Seq<char>)
    requires
        all_digits(s),
    ensures
        digits_val(s) >= 0,
    decreases s.len(),
{
    if s.len() > 0 {
        assert(all_digits(s.drop_last()));
        lemma_digits_val_nonneg(s.drop_last());
    }
}

/// Extending a digit sequence never shrinks its value: every prefix
/// denotes at most what the whole sequence denotes.
proof fn lemma_digits_val_prefix(s: Seq<char>, j: int)
    requires
        all_digits(s),
        0 <= j <= s.len(),
    ensures
        digits_val(s.take(j)) <= digits_val(s),
    decreases s.len() - j,
{
    if j < s.len() {
        let t = s.take(j + 1);
        assert(t.drop_last() =~= s.take(j));
        assert(all_digits(s.take(j)));
        lemma_digits_val_nonneg(s.take(j));
        assert(digits_val(t) == digits_val(s.take(j)) * 10 + digit_val(s[j]));
        assert(digits_val(s.take(j)) * 10 >= digits_val(s.take(j)));
        lemma_digits_val_prefix(s, j + 1);
    } else {
        assert(s.take(j) =~= s);
    }
}

/// Parse a page parameter as `str::parse::<usize>` would, substituting 1
/// for anything unparsable: an empty or missing digit part, a stray
/// character, or a value too large for `usize`.
pub fn parse_page_or_one(s: &str) -> (p: usize)
    ensures
        match spec_parse_usize(s@) {
            Some(v) => p == v,
            None => p == 1,
        },
{
    let len = s.unicode_len();
    let ghost digits = spec_digits_part(s@);
    let mut i: usize = 0;
    if len > 0 && s.get_char(0) == '+' {
        i = 1;
    }
    let start = i;
    proof {
        assert(digits =~= s@.skip(start as int));
    }
    if i == len {
        // no digits at all
        return 1;
    }
    let mut acc: usize = 0;
    while i < len
        invariant
            start <= i <= len,
            len == s@.len(),
            digits == spec_digits_part(s@),
            digits =~= s@.skip(start as int),
            all_digits(digits.take(i - start)),
            acc == digits_val(digits.take(i - start)),
        decreases len - i,
    {
        let c = s.get_char(i);
        let u = c as u32;
        let ghost k = i - start;
        proof {
            assert(digits[k as int] == s@[i as int]);
        }
        if u < 48 || u > 57 {
            proof {
                assert(!is_digit(digits[k as int]));
            }
            return 1;
        }
        let d = (u - 48) as usize;
        proof {
            assert(digits.take(k + 1).drop_last() =~= digits.take(k as int));
            assert(digits.take(k + 1).last() == digits[k as int]);
            assert(digits_val(digits.take(k + 1)) == acc * 10 + d);
        }
        if acc > usize::MAX / 10 {
            proof {
                lemma_overflow_means_unparsable(digits, k, acc * 10 + d);
            }
            return 1;
        }
        let acc10 = acc * 10;
        if d > usize::MAX - acc10 {
            proof {
                lemma_overflow_means_unparsable(digits, k, acc * 10 + d);
            }
            return 1;
        }
        acc = acc10 + d;
        i += 1;
        proof {
            assert(all_digits(digits.take(k + 1)));
        }
    }
    proof {
        assert(digits.take(len - start) =~= digits);
    }
    acc
}

/// Once some prefix of the digit part already denotes more than
/// `usize::MAX`, the numeral as a whole is unparsable.
proof fn lemma_overflow_means_unparsable(digits: Seq<char>, k: int, big: int)
    requires
        0 <= k < digits.len(),
        all_digits(digits.take(k)),
        big == digits_val(digits.take(k + 1)),
        big > usize::MAX,
    ensures
        !(all_digits(digits) && digits_val(digits) <= usize::MAX),
{
    if all_digits(digits) {
        lemma_digits_val_prefix(digits, k + 1);
    }
}

} // verus!
