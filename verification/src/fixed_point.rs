//! Six-decimal fixed-point arithmetic for amounts, prices and share counts.
//!
//! One unit stands for 0.000001 of a currency unit or of a share. Products
//! are formed in 128 bits, so the only failure is a result that does not fit
//! 64 bits.

use vstd::prelude::*;
use vstd::arithmetic::div_mod::{lemma_div_is_ordered, lemma_fundamental_div_mod};
use vstd::arithmetic::mul::{lemma_mul_inequality, lemma_mul_is_commutative};
use crate::error::ErrorCode;

verus! {

/// The number of units in one currency unit, and in one share.
pub const SCALE: u64 = 1_000_000;

/// The highest price of one share: one currency unit.
pub const MAX_PRICE: u64 = 1_000_000;

/// The shares that `amount_usdc` buys at `price_per_share`, rounded down:
/// the amount divided by the price, in fixed point.
pub open spec fn shares_for(amount_usdc: nat, price_per_share: nat) -> nat {
    (amount_usdc * SCALE as nat) / price_per_share
}

/// The amount that `shares` are worth at `current_price`, rounded down: the
/// shares times the price, in fixed point.
pub open spec fn payout_for(shares: nat, current_price: nat) -> nat {
    (shares * current_price) / (SCALE as nat)
}

/// A quantity as the ledger holds it: the value itself where it fits 64
/// bits, and `ArithmeticOverflow` where it does not.
pub open spec fn checked_u64(value: nat) -> Result<u64, ErrorCode> {
    if value <= u64::MAX {
        Ok(value as u64)
    } else {
        Err(ErrorCode::ArithmeticOverflow)
    }
}

/// Computes the shares bought for `amount_usdc` at `price_per_share`.
///
/// The price is not 0: a caller turns such a price away before it asks.
pub fn shares_from_spend(amount_usdc: u64, price_per_share: u64) -> (r: Result<u64, ErrorCode>)
    requires
        price_per_share > 0,
    ensures
        r == checked_u64(shares_for(amount_usdc as nat, price_per_share as nat)),
{
    let scaled: u128 = match (amount_usdc as u128).checked_mul(SCALE as u128) {
        Some(product) => product,
        None => { return Err(ErrorCode::ArithmeticOverflow); },
    };
    let shares: u128 = scaled / (price_per_share as u128);
    if shares > u64::MAX as u128 {
        Err(ErrorCode::ArithmeticOverflow)
    } else {
        Ok(shares as u64)
    }
}

/// Computes what `shares` pay out at `current_price`.
pub fn payout_from_shares(shares: u64, current_price: u64) -> (r: Result<u64, ErrorCode>)
    ensures
        r == checked_u64(payout_for(shares as nat, current_price as nat)),
{
    let product: u128 = match (shares as u128).checked_mul(current_price as u128) {
        Some(product) => product,
        None => { return Err(ErrorCode::ArithmeticOverflow); },
    };
    let payout: u128 = product / (SCALE as u128);
    if payout > u64::MAX as u128 {
        Err(ErrorCode::ArithmeticOverflow)
    } else {
        Ok(payout as u64)
    }
}

/// Rounding never creates value: the shares bought for an amount, sold again
/// at the price paid for them, return no more than that amount.
pub proof fn lemma_round_trip_never_gains(amount_usdc: nat, price_per_share: nat)
    requires
        0 < price_per_share <= MAX_PRICE,
    ensures
        payout_for(shares_for(amount_usdc, price_per_share), price_per_share) <= amount_usdc,
{
    let scaled = (amount_usdc * 1_000_000) as int;
    let price = price_per_share as int;
    let shares = scaled / price;
    // The shares, priced again, are the scaled amount less the remainder of
    // the division.
    assert(shares * price <= scaled) by {
        lemma_fundamental_div_mod(scaled, price);
        lemma_mul_is_commutative(shares, price);
    }
    assert(0 <= shares * price) by (nonlinear_arith)
        requires
            0 <= shares,
            0 < price,
    ;
    // Scaling down keeps the order, and takes the scaled amount back to the
    // amount.
    lemma_div_is_ordered(shares * price, scaled, 1_000_000);
}

/// The same of what the two computations return: where the shares for an
/// amount fit 64 bits, their payout at the price paid for them fits too, and
/// is no more than the amount.
pub proof fn lemma_round_trip_results(amount_usdc: u64, price_per_share: u64)
    requires
        0 < price_per_share <= MAX_PRICE,
    ensures
        checked_u64(shares_for(amount_usdc as nat, price_per_share as nat)) matches Ok(shares) ==> (checked_u64(
            payout_for(shares as nat, price_per_share as nat),
        ) matches Ok(back) && back <= amount_usdc),
{
    lemma_round_trip_never_gains(amount_usdc as nat, price_per_share as nat);
}

/// At a price of at most one currency unit per share, shares never pay out
/// more units of currency than there are units of shares.
pub proof fn lemma_payout_within_shares(shares: nat, current_price: nat)
    requires
        current_price <= MAX_PRICE,
    ensures
        payout_for(shares, current_price) <= shares,
{
    // shares * price <= shares * 10^6, and scaling down keeps the order.
    lemma_mul_inequality(current_price as int, 1_000_000, shares as int);
    lemma_mul_is_commutative(current_price as int, shares as int);
    lemma_div_is_ordered((shares * current_price) as int, (shares * 1_000_000) as int, 1_000_000);
}

} // verus!
