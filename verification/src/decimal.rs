//! Decimal notation: the number that a run of ASCII digits denotes.

use vstd::prelude::*;

verus! {

/// The ASCII code of the digit `0`.
pub const ZERO: u8 = 48;

/// The ASCII code of the digit `9`.
pub const NINE: u8 = 57;

/// Whether a byte is an ASCII decimal digit.
pub open spec fn is_digit(b: u8) -> bool {
    ZERO <= b <= NINE
}

/// Whether every byte is an ASCII decimal digit.
pub open spec fn all_digits(digits: Seq<u8>) -> bool {
    forall|i: int| 0 <= i < digits.len() ==> is_digit(#[trigger] digits[i])
}

/// The number that a sequence of decimal digits denotes, most significant
/// digit first.
pub open spec fn digits_value(digits: Seq<u8>) -> int
    decreases digits.len(),
{
    if digits.len() == 0 {
        0
    } else {
        10 * digits_value(digits.drop_last()) + (digits.last() - ZERO)
    }
}

/// Whether the bytes are one or more ASCII digits that denote a number above
/// `limit`.
pub open spec fn beyond(digits: Seq<u8>, limit: u32) -> bool {
    digits.len() > 0 && all_digits(digits) && digits_value(digits) > limit
}

/// A run of digits that is followed by a digit is, with it, a run of digits,
/// and denotes ten times its number plus that digit.
pub proof fn lemma_digits_extended(digits: Seq<u8>, k: int)
    requires
        0 <= k < digits.len(),
        all_digits(digits.subrange(0, k)),
        is_digit(digits[k]),
    ensures
        all_digits(digits.subrange(0, k + 1)),
        digits_value(digits.subrange(0, k + 1)) == 10 * digits_value(digits.subrange(0, k)) + (
        digits[k] - ZERO),
{
    let shorter = digits.subrange(0, k);
    let longer = digits.subrange(0, k + 1);
    assert(longer.drop_last() =~= shorter);
    assert(longer.last() == digits[k]);
    assert forall|j: int| 0 <= j < longer.len() implies is_digit(#[trigger] longer[j]) by {
        if j < shorter.len() {
            assert(longer[j] == shorter[j]);
        }
    }
}

/// A sequence of digits denotes no less than any of its prefixes, and no
/// number below zero.
pub proof fn lemma_digits_value_grows(digits: Seq<u8>, k: int)
    requires
        all_digits(digits),
        0 <= k <= digits.len(),
    ensures
        0 <= digits_value(digits.subrange(0, k)) <= digits_value(digits),
    decreases digits.len() - k,
{
    let prefix = digits.subrange(0, k);
    if k == digits.len() {
        assert(prefix =~= digits);
        lemma_digits_value_nonnegative(digits);
    } else {
        let longer = digits.subrange(0, k + 1);
        assert(longer.drop_last() =~= prefix);
        assert(is_digit(digits[k]));
        assert(longer.last() == digits[k]);
        lemma_digits_value_grows(digits, k + 1);
        assert(all_digits(prefix));
        lemma_digits_value_nonnegative(prefix);
    }
}

/// A sequence of digits denotes no number below zero.
pub proof fn lemma_digits_value_nonnegative(digits: Seq<u8>)
    requires
        all_digits(digits),
    ensures
        0 <= digits_value(digits),
    decreases digits.len(),
{
    if digits.len() > 0 {
        assert(is_digit(digits[digits.len() - 1]));
        lemma_digits_value_nonnegative(digits.drop_last());
    }
}

/// Tells whether the bytes are a decimal number above `limit`.
pub fn exceeds(digits: &[u8], limit: u32) -> (r: bool)
    ensures
        r == beyond(digits@, limit),
{
    let n: usize = digits.len();
    let mut value: u64 = 0;
    let mut over: bool = false;
    let mut i: usize = 0;
    while i < n
        invariant
            i <= n,
            n == digits@.len(),
            all_digits(digits@.subrange(0, i as int)),
            !over ==> value == digits_value(digits@.subrange(0, i as int)) && value <= limit,
            over ==> digits_value(digits@.subrange(0, i as int)) > limit,
        decreases n - i,
    {
        let b: u8 = digits[i];
        if b < ZERO || b > NINE {
            assert(!is_digit(digits@[i as int]));
            return false;
        }
        proof {
            lemma_digits_extended(digits@, i as int);
        }
        if !over {
            value = value * 10 + (b - ZERO) as u64;
            over = value > limit as u64;
        }
        i += 1;
    }
    assert(digits@.subrange(0, n as int) =~= digits@);
    over
}

} // verus!
