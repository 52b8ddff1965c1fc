//! Unsigned numbers where signed ones are asked for.

use vstd::prelude::*;

verus! {

/// The signed number with the same bits: numbers from 2^31 on stand for negative ones, in
/// two's complement.
pub open spec fn signed(number: u32) -> int {
    if number < 0x8000_0000 {
        number as int
    } else {
        number - 0x1_0000_0000
    }
}

/// The signed number with the same bits.
pub fn to_signed(number: u32) -> (result: i32)
    ensures
        result == signed(number),
{
    assert(number < 0x8000_0000u32 ==> number as i32 == number) by (bit_vector);
    assert(number >= 0x8000_0000u32 ==> number as i32 == number - 0x1_0000_0000) by (bit_vector);
    number as i32
}

/// The signed number is the one in the range of signed numbers that differs from the
/// unsigned one by nothing or by a multiple of 2^32: small numbers stay what they are.
pub proof fn law_signed_differs_by_multiples_of_the_range(number: u32)
    ensures
        i32::MIN <= signed(number) <= i32::MAX,
        (signed(number) - number) % 0x1_0000_0000 == 0,
        number <= i32::MAX ==> signed(number) == number,
{
}

/// Different numbers stay different.
pub proof fn law_signed_is_injective(first: u32, second: u32)
    ensures
        signed(first) == signed(second) <==> first == second,
{
}

} // verus!
