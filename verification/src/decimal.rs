//! Decimal rendering of unsigned integers.

use vstd::prelude::*;

verus! {

/// The ASCII decimal digits of `n`, most significant first, without
/// leading zeros (a single `0` for zero).
pub open spec fn decimal_digits(n: nat) -> Seq<u8>
    decreases n,
{
    if n < 10 {
        seq![(48 + n) as u8]
    } else {
        decimal_digits(n / 10).push((48 + n % 10) as u8)
    }
}

/// `count` spaces.
pub open spec fn spaces(count: nat) -> Seq<u8> {
    Seq::new(count, |i: int| 32u8)
}

/// `digits` right-aligned in a field of `width` bytes, padded with spaces
/// on the left; longer input is left as it is.
pub open spec fn right_aligned(digits: Seq<u8>, width: nat) -> Seq<u8> {
    if digits.len() >= width {
        digits
    } else {
        spaces((width - digits.len()) as nat) + digits
    }
}

/// A decimal rendering is never empty and every byte of it is a digit.
pub proof fn lemma_decimal_digits_shape(n: nat)
    ensures
        decimal_digits(n).len() >= 1,
        forall|i: int| 0 <= i < decimal_digits(n).len() ==> 48 <= #[trigger] decimal_digits(n)[i] <= 57,
    decreases n,
{
    if n >= 10 {
        lemma_decimal_digits_shape(n / 10);
    }
}

/// A 64-bit value has at most twenty decimal digits.
pub proof fn lemma_decimal_digits_u64(n: u64)
    ensures
        1 <= decimal_digits(n as nat).len() <= 20,
{
    reveal_with_fuel(decimal_digits, 21);
}

} // verus!
