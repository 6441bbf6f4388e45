use vstd::prelude::*;

verus! {

/// One hundred percent, in basis points; no fee schedule may exceed it.
pub const MAX_FEE_BASIS_POINTS: u16 = 10000;

/// Bit pattern of a positive, finite, nonzero binary64 number: sign bit
/// clear, exponent field not all ones, and not the zero pattern.
pub open spec fn spec_multiplier_bits_valid(bits: u64) -> bool {
    &&& bits != 0
    &&& bits >> 63 == 0
    &&& (bits >> 52) & 0x7ff != 0x7ff
}

pub fn multiplier_bits_valid(bits: u64) -> (r: bool)
    ensures
        r == spec_multiplier_bits_valid(bits),
{
    bits != 0 && bits >> 63 == 0 && (bits >> 52) & 0x7ff != 0x7ff
}

/// The fee withheld from a transfer of `amount` base units under a schedule
/// of `basis_points` per ten thousand, rounded up, capped at `maximum_fee`.
pub open spec fn spec_transfer_fee(amount: u64, basis_points: u16, maximum_fee: u64) -> int {
    if basis_points == 0 || amount == 0 {
        0
    } else {
        let raw = (amount * basis_points + 9999) / 10000;
        if raw > maximum_fee {
            maximum_fee as int
        } else {
            raw
        }
    }
}

/// A capped fee never exceeds the transferred amount.
pub proof fn lemma_fee_le_amount(amount: u64, basis_points: u16, maximum_fee: u64)
    requires
        basis_points <= MAX_FEE_BASIS_POINTS,
    ensures
        0 <= spec_transfer_fee(amount, basis_points, maximum_fee) <= amount,
{
    if basis_points != 0 && amount != 0 {
        assert((amount * basis_points + 9999) / 10000 <= amount) by (nonlinear_arith)
            requires
                basis_points <= 10000,
                amount >= 1,
        ;
        assert((amount * basis_points + 9999) / 10000 >= 0) by (nonlinear_arith)
            requires
                amount >= 1,
                basis_points >= 1,
        ;
    }
}

pub fn transfer_fee(amount: u64, basis_points: u16, maximum_fee: u64) -> (r: u64)
    requires
        basis_points <= MAX_FEE_BASIS_POINTS,
    ensures
        r == spec_transfer_fee(amount, basis_points, maximum_fee),
{
    if basis_points == 0 || amount == 0 {
        return 0;
    }
    proof {
        assert((amount as int) * (basis_points as int) < 0x100000000000000000000u128)
            by (nonlinear_arith)
            requires
                amount <= 0xffffffffffffffffu64,
                basis_points <= 0xffffu16,
        ;
    }
    let num: u128 = (amount as u128) * (basis_points as u128) + 9999;
    let raw: u128 = num / 10000;
    if raw > maximum_fee as u128 {
        maximum_fee
    } else {
        raw as u64
    }
}

} // verus!
