use vstd::prelude::*;
use vstd::arithmetic::power::pow;
use crate::uint256::{u256_bound, U256};

verus! {

/// `value`, read at `prev` fractional digits, re-expressed at `new` digits
/// (rounded down when digits are dropped).
pub open spec fn cast_value(value: nat, prev: nat, new: nat) -> int {
    if prev == new {
        value as int
    } else if prev > new {
        value as int / pow(10, (prev - new) as nat)
    } else {
        value as int * pow(10, (new - prev) as nat)
    }
}

/// 10^exp.
pub fn pow10(exp: u8) -> (r: U256)
    requires
        pow(10, exp as nat) < u256_bound(),
    ensures
        r.value() == pow(10, exp as nat),
{
    U256::from_u128(10).pow(U256::from_u128(exp as u128))
}

/// Re-expresses a fixed-point integer with `prev` fractional digits at `new` digits.
pub fn cast_decimals(value: U256, prev: u8, new: u8) -> (r: U256)
    requires
        pow(10, if prev >= new { (prev - new) as nat } else { (new - prev) as nat })
            < u256_bound(),
        cast_value(value.value(), prev as nat, new as nat) < u256_bound(),
    ensures
        r.value() == cast_value(value.value(), prev as nat, new as nat),
{
    if prev == new {
        value
    } else if prev > new {
        let p = pow10(prev - new);
        proof {
            vstd::arithmetic::power::lemma_pow_positive(10, (prev - new) as nat);
        }
        value.checked_div(p).unwrap()
    } else {
        let p = pow10(new - prev);
        value.checked_mul(p).unwrap()
    }
}

} // verus!
