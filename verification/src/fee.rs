//! Fee reserve arithmetic.

use vstd::prelude::*;

verus! {

/// The larger of two amounts.
pub open spec fn max_amount(a: u64, b: u64) -> u64 {
    if a >= b {
        a
    } else {
        b
    }
}

/// The fee reserved for an outgoing payment: the absolute floor, or the
/// relative share of the amount where that is larger.
///
/// `relative_fee_reserve` is the percentage share of the amount, truncated
/// toward zero.
pub fn fee_reserve(min_fee_reserve: u64, relative_fee_reserve: u64) -> (fee: u64)
    ensures
        fee == max_amount(min_fee_reserve, relative_fee_reserve),
{
    if relative_fee_reserve > min_fee_reserve {
        relative_fee_reserve
    } else {
        min_fee_reserve
    }
}

} // verus!
