//! The persisted pool record: one per deployed sale.

use vstd::prelude::*;

use crate::identity::Identity;

verus! {

/// The single persisted record of a sale pool.
///
/// Created exactly once, mutated only by the timestamp amendment; the four
/// timestamps drive the phase machine, `num_ido_tokens` is the sale-token
/// quantity placed in custody at creation, and the identities name the
/// custody accounts and mints the host holds for the pool.
#[derive(Clone, Copy, Debug, PartialEq, Eq, Structural)]
pub struct PoolAccount {
    /// The receipt-token mint this pool's custody authority controls.
    pub redeemable_mint: Identity,
    /// The custody account holding the sale token.
    pub pool_watermelon: Identity,
    /// The sale-token mint.
    pub watermelon_mint: Identity,
    /// The custody account holding the deposited stable asset.
    pub pool_usdc: Identity,
    /// The identity permitted to administer and withdraw for this pool.
    pub distribution_authority: Identity,
    /// The seed byte the custody authority is derived from.
    pub nonce: u8,
    /// The sale-token quantity moved into custody at creation.
    pub num_ido_tokens: u64,
    /// When deposits open.
    pub start_ido_ts: i64,
    /// When deposits close.
    pub end_deposits_ts: i64,
    /// When the sale ends.
    pub end_ido_ts: i64,
    /// When redemption and creator withdrawal unlock.
    pub withdraw_melon_ts: i64,
}

/// The timestamp chain a pool is created with: deposits close strictly
/// after they open, and the later boundaries never move backwards.
pub open spec fn times_ordered(
    start_ido_ts: i64,
    end_deposits_ts: i64,
    end_ido_ts: i64,
    withdraw_melon_ts: i64,
) -> bool {
    start_ido_ts < end_deposits_ts <= end_ido_ts <= withdraw_melon_ts
}

/// The strictly increasing chain a timestamp amendment must supply.
pub open spec fn times_strictly_ordered(
    start_ido_ts: i64,
    end_deposits_ts: i64,
    end_ido_ts: i64,
    withdraw_melon_ts: i64,
) -> bool {
    start_ido_ts < end_deposits_ts < end_ido_ts < withdraw_melon_ts
}

impl PoolAccount {
    /// The record's lifetime invariant: ordered timestamps and a positive
    /// sale-token quantity. Creation establishes it and amendment keeps it.
    pub open spec fn wf(self) -> bool {
        &&& times_ordered(
            self.start_ido_ts,
            self.end_deposits_ts,
            self.end_ido_ts,
            self.withdraw_melon_ts,
        )
        &&& self.num_ido_tokens > 0
    }
}

} // verus!
