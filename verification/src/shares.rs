//! Splitting a balance: the platform's fee in basis points and the heirs'
//! shares in percent, both rounded down.

use vstd::prelude::*;

verus! {

/// Basis points that make a whole.
pub const BPS_DENOMINATOR: u64 = 10000;

/// Percentage points that make a whole.
pub const FULL_ALLOCATION: u8 = 100;

/// The fee on `balance` at `fee_bps` basis points, rounded down.
pub open spec fn fee_of(balance: int, fee_bps: int) -> int {
    balance * fee_bps / 10000
}

/// The part of `amount` that `percentage` percent come to, rounded down.
pub open spec fn share_of(amount: int, percentage: int) -> int {
    amount * percentage / 100
}

/// A fee of at most a whole is never negative and never more than the balance.
pub proof fn lemma_fee_bounds(balance: int, fee_bps: int)
    requires
        0 <= balance,
        0 <= fee_bps <= 10000,
    ensures
        0 <= fee_of(balance, fee_bps) <= balance,
{
    assert(0 <= balance * fee_bps <= balance * 10000) by (nonlinear_arith)
        requires
            0 <= balance,
            0 <= fee_bps <= 10000,
    ;
}

/// A share of at most a hundred percent is never negative and never more than
/// the amount.
pub proof fn lemma_share_bounds(amount: int, percentage: int)
    requires
        0 <= amount,
        0 <= percentage <= 100,
    ensures
        0 <= share_of(amount, percentage) <= amount,
{
    assert(0 <= amount * percentage <= amount * 100) by (nonlinear_arith)
        requires
            0 <= amount,
            0 <= percentage <= 100,
    ;
}

/// The platform's fee on a balance.
pub fn platform_fee(balance: u64, fee_bps: u16) -> (fee: u64)
    requires
        fee_bps <= BPS_DENOMINATOR,
    ensures
        fee == fee_of(balance as int, fee_bps as int),
        fee <= balance,
{
    proof {
        lemma_fee_bounds(balance as int, fee_bps as int);
        assert(balance * fee_bps <= u64::MAX * 10000) by (nonlinear_arith)
            requires
                0 <= balance <= u64::MAX,
                0 <= fee_bps <= 10000,
        ;
    }
    let product: u128 = balance as u128 * fee_bps as u128;
    (product / 10000) as u64
}

/// One heir's share of the amount to distribute.
pub fn heir_share(amount: u64, percentage: u8) -> (share: u64)
    requires
        percentage <= FULL_ALLOCATION,
    ensures
        share == share_of(amount as int, percentage as int),
        share <= amount,
{
    proof {
        lemma_share_bounds(amount as int, percentage as int);
        assert(amount * percentage <= u64::MAX * 100) by (nonlinear_arith)
            requires
                0 <= amount <= u64::MAX,
                0 <= percentage <= 100,
        ;
    }
    let product: u128 = amount as u128 * percentage as u128;
    (product / 100) as u64
}

} // verus!
