//! The redemption formula: a receipt holder's pro-rata share of the sale
//! tokens in custody, clamped by a reference floor price.
//!
//! All arithmetic is integer fixed-point with floor rounding, widened to
//! 128 bits so the intermediate products cannot overflow: the payout is a
//! deterministic function of the three quantities on every machine.

use vstd::prelude::*;

use vstd::arithmetic::div_mod::{lemma_div_is_ordered, lemma_div_multiples_vanish};
use vstd::arithmetic::mul::{lemma_mul_inequality, lemma_mul_is_commutative, lemma_mul_upper_bound};

verus! {

/// Scaling between the receipt token's decimal precision and the stable
/// asset's: the receipt token is tracked three decimal places below it.
pub const RECEIPT_SCALE: u64 = 1000;

/// Fixed-point price precision: a price is carried as price times 10^9.
pub const PRICE_PRECISION: u64 = 1_000_000_000;

/// The reference floor price, 0.5 units of stable asset per sale token,
/// in fixed point: 0.5 times `PRICE_PRECISION`.
pub const FLOOR_PRICE: u64 = 500_000_000;

/// Nominal pro-rata share: `amount * pool_supply / receipt_supply`,
/// rounded down.
pub open spec fn nominal_share(amount: int, pool_supply: int, receipt_supply: int) -> int
    recommends
        receipt_supply > 0,
{
    amount * pool_supply / receipt_supply
}

/// The implied clearing price in fixed point: the rescaled receipt supply
/// per sale token in custody, times `PRICE_PRECISION`, rounded down.
pub open spec fn implied_price(pool_supply: int, receipt_supply: int) -> int
    recommends
        pool_supply > 0,
{
    receipt_supply * (RECEIPT_SCALE as int) * (PRICE_PRECISION as int) / pool_supply
}

/// The sale under-filled relative to the floor: more receipt tokens were
/// issued per sale token than the floor price implies is fair.
pub open spec fn below_floor(pool_supply: int, receipt_supply: int) -> bool {
    implied_price(pool_supply, receipt_supply) < FLOOR_PRICE
}

/// The payout a redemption owes: the nominal share, scaled down by
/// `implied_price / FLOOR_PRICE` when the implied price undercuts the
/// floor, rounded down.
pub open spec fn clamped_share(amount: int, pool_supply: int, receipt_supply: int) -> int
    recommends
        pool_supply > 0,
        receipt_supply > 0,
{
    let share = nominal_share(amount, pool_supply, receipt_supply);
    if below_floor(pool_supply, receipt_supply) {
        share * implied_price(pool_supply, receipt_supply) / (FLOOR_PRICE as int)
    } else {
        share
    }
}

/// A redeemer never draws more than the pro-rata share of custody: while
/// the redeemed amount is within the receipt supply, the nominal share
/// stays within the sale tokens in custody.
pub proof fn lemma_nominal_share_le_pool(amount: int, pool_supply: int, receipt_supply: int)
    requires
        0 <= amount <= receipt_supply,
        0 < receipt_supply,
        0 <= pool_supply,
    ensures
        0 <= nominal_share(amount, pool_supply, receipt_supply) <= pool_supply,
{
    lemma_mul_inequality(amount, receipt_supply, pool_supply);
    lemma_div_is_ordered(amount * pool_supply, receipt_supply * pool_supply, receipt_supply);
    lemma_div_multiples_vanish(pool_supply, receipt_supply);
    vstd::arithmetic::mul::lemma_mul_nonnegative(amount, pool_supply);
    vstd::arithmetic::div_mod::lemma_div_pos_is_pos(amount * pool_supply, receipt_supply);
}

/// The floor clamp only ever reduces the payout: the clamped share never
/// exceeds the nominal share.
pub proof fn lemma_clamped_share_le_nominal(amount: int, pool_supply: int, receipt_supply: int)
    requires
        0 <= amount <= receipt_supply,
        0 < receipt_supply,
        0 < pool_supply,
    ensures
        0 <= clamped_share(amount, pool_supply, receipt_supply)
            <= nominal_share(amount, pool_supply, receipt_supply),
{
    let share = nominal_share(amount, pool_supply, receipt_supply);
    let price = implied_price(pool_supply, receipt_supply);
    let floor = FLOOR_PRICE as int;
    lemma_nominal_share_le_pool(amount, pool_supply, receipt_supply);
    if below_floor(pool_supply, receipt_supply) {
        vstd::arithmetic::mul::lemma_mul_nonnegative(receipt_supply * (RECEIPT_SCALE as int), PRICE_PRECISION as int);
        vstd::arithmetic::mul::lemma_mul_nonnegative(receipt_supply, RECEIPT_SCALE as int);
        vstd::arithmetic::div_mod::lemma_div_pos_is_pos(
            receipt_supply * (RECEIPT_SCALE as int) * (PRICE_PRECISION as int),
            pool_supply,
        );
        lemma_mul_inequality(price, floor, share);
        lemma_mul_is_commutative(price, share);
        lemma_mul_is_commutative(floor, share);
        lemma_div_is_ordered(share * price, floor * share, floor);
        lemma_div_multiples_vanish(share, floor);
        vstd::arithmetic::mul::lemma_mul_nonnegative(share, price);
        vstd::arithmetic::div_mod::lemma_div_pos_is_pos(share * price, floor);
    }
}

/// The payout never exceeds the sale tokens in custody.
pub proof fn lemma_clamped_share_le_pool(amount: int, pool_supply: int, receipt_supply: int)
    requires
        0 <= amount <= receipt_supply,
        0 < receipt_supply,
        0 < pool_supply,
    ensures
        0 <= clamped_share(amount, pool_supply, receipt_supply) <= pool_supply,
{
    lemma_nominal_share_le_pool(amount, pool_supply, receipt_supply);
    lemma_clamped_share_le_nominal(amount, pool_supply, receipt_supply);
}

/// Computes the payout of a redemption: the nominal pro-rata share of the
/// sale tokens in custody, scaled down when the implied clearing price
/// undercuts the floor. Widened to 128 bits internally, so no input can
/// overflow the intermediate products.
pub fn redemption_share(amount: u64, pool_supply: u64, receipt_supply: u64) -> (r: u64)
    requires
        pool_supply > 0,
        receipt_supply > 0,
        amount <= receipt_supply,
    ensures
        r == clamped_share(amount as int, pool_supply as int, receipt_supply as int),
        r <= pool_supply,
{
    proof {
        lemma_mul_upper_bound(amount as int, u64::MAX as int, pool_supply as int, u64::MAX as int);
        lemma_nominal_share_le_pool(amount as int, pool_supply as int, receipt_supply as int);
        lemma_clamped_share_le_pool(amount as int, pool_supply as int, receipt_supply as int);
    }
    let share: u128 = (amount as u128) * (pool_supply as u128) / (receipt_supply as u128);
    let price: u128 = (receipt_supply as u128) * (RECEIPT_SCALE as u128) * (PRICE_PRECISION as u128)
        / (pool_supply as u128);
    if price < FLOOR_PRICE as u128 {
        proof {
            lemma_mul_upper_bound(share as int, u64::MAX as int, price as int, FLOOR_PRICE - 1);
        }
        let clamped: u128 = share * price / (FLOOR_PRICE as u128);
        clamped as u64
    } else {
        share as u64
    }
}

} // verus!
