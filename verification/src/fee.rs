//! Fee policy: the protocol fee charged on a transfer amount.

use vstd::prelude::*;

verus! {

/// The share of `amount` that `fee_rate_bps` basis points stand for, rounded
/// down.
pub open spec fn percentage_fee(amount: nat, fee_rate_bps: nat) -> nat {
    amount * fee_rate_bps / 10000
}

/// The protocol fee: the percentage fee, but never less than the fixed base
/// fee.
///
/// The percentage fee is held as a 64-bit amount. At a rate of at most 10000
/// basis points it always fits (see [`lemma_percentage_fee_fits`]); at a
/// higher rate only its low 64 bits count.
pub open spec fn fee_of(amount: nat, fee_rate_bps: nat, fixed_base_fee: nat) -> nat {
    let percentage = percentage_fee(amount, fee_rate_bps) % 0x1_0000_0000_0000_0000;
    if percentage > fixed_base_fee {
        percentage
    } else {
        fixed_base_fee
    }
}

/// A rate of at most one whole never yields a percentage fee above the amount.
pub proof fn lemma_percentage_fee_fits(amount: nat, fee_rate_bps: nat)
    requires
        fee_rate_bps <= 10000,
    ensures
        percentage_fee(amount, fee_rate_bps) <= amount,
{
    assert(amount * fee_rate_bps <= amount * 10000) by (nonlinear_arith)
        requires
            fee_rate_bps <= 10000,
    ;
}

/// The fee is never below the fixed base fee, and at a rate of at most 10000
/// basis points it is the larger of the fixed base fee and the percentage fee:
/// it equals the percentage fee whenever that exceeds the fixed one.
pub proof fn lemma_fee_floor_and_percentage(amount: u64, fee_rate_bps: u16, fixed_base_fee: u64)
    ensures
        fee_of(amount as nat, fee_rate_bps as nat, fixed_base_fee as nat) >= fixed_base_fee,
        fee_rate_bps <= 10000 && percentage_fee(amount as nat, fee_rate_bps as nat)
            > fixed_base_fee ==> fee_of(amount as nat, fee_rate_bps as nat, fixed_base_fee as nat)
            == percentage_fee(amount as nat, fee_rate_bps as nat),
        fee_rate_bps <= 10000 && percentage_fee(amount as nat, fee_rate_bps as nat)
            <= fixed_base_fee ==> fee_of(amount as nat, fee_rate_bps as nat, fixed_base_fee as nat)
            == fixed_base_fee,
{
    if fee_rate_bps <= 10000 {
        lemma_percentage_fee_fits(amount as nat, fee_rate_bps as nat);
    }
}

/// Computes the protocol fee for `amount`.
///
/// The product is taken in 128 bits, so it cannot overflow.
pub fn compute_fee(amount: u64, fee_rate_bps: u16, fixed_base_fee: u64) -> (fee: u64)
    ensures
        fee == fee_of(amount as nat, fee_rate_bps as nat, fixed_base_fee as nat),
        fee >= fixed_base_fee,
        fee_rate_bps <= 10000 && percentage_fee(amount as nat, fee_rate_bps as nat)
            > fixed_base_fee ==> fee == percentage_fee(amount as nat, fee_rate_bps as nat),
{
    assert(amount as u128 * fee_rate_bps as u128 <= 0xffff_ffff_ffff_ffff * 0xffff)
        by (nonlinear_arith);
    let wide: u128 = amount as u128 * fee_rate_bps as u128;
    let scaled: u128 = wide / 10000;
    let low: u128 = scaled % 0x1_0000_0000_0000_0000;
    let percentage: u64 = low as u64;
    proof {
        lemma_fee_floor_and_percentage(amount, fee_rate_bps, fixed_base_fee);
    }
    if percentage > fixed_base_fee {
        percentage
    } else {
        fixed_base_fee
    }
}

} // verus!
