//! The pool's operations, each acting on the plain balances of the
//! accounts it touches.
//!
//! The host environment authenticates the signers, looks the accounts up
//! and performs the actual ledger writes; these functions make every
//! decision and compute every new balance. Each operation evaluates its
//! phase gate before anything else, and a rejected call leaves every
//! balance and the pool record exactly as it was, so the host can apply
//! the computed balances atomically or not at all.

use vstd::prelude::*;

use crate::errors::ErrorCode;
use crate::identity::{DeployerPolicy, Identity};
use crate::phases::{
    future_start_time, ido_over, locked_phase, open_phase, settled_phase, unrestricted_phase,
    withdraw_only_phase,
};
use crate::pool::{times_ordered, times_strictly_ordered, PoolAccount};
use crate::redemption::{clamped_share, redemption_share};

verus! {

// ---------------------------------------------------------------------------
// Pool creation
// ---------------------------------------------------------------------------

/// The accounts pool creation touches: the custody authority and the
/// identities the new record will carry, the receipt mint's state, and the
/// sale-token balances the creation moves. Fields ending in `_amount` are
/// balances; the rest are identities as the host names them.
#[derive(Clone, Copy, Debug, PartialEq, Eq, Structural)]
pub struct InitializePool {
    /// The custody authority the caller supplied.
    pub pool_signer: Identity,
    /// The custody authority the host derived from the sale-token mint and
    /// the nonce; `None` when the derivation failed.
    pub derived_pool_signer: Option<Identity>,
    /// The receipt-token mint.
    pub redeemable_mint: Identity,
    /// The receipt mint's minting authority, if it has one.
    pub redeemable_mint_authority: Option<Identity>,
    /// The receipt tokens outstanding.
    pub redeemable_supply: u64,
    /// The sale-token mint.
    pub watermelon_mint: Identity,
    /// The custody account for the sale token.
    pub pool_watermelon: Identity,
    /// The sale tokens already in custody.
    pub pool_watermelon_amount: u64,
    /// The custody account for the stable asset.
    pub pool_usdc: Identity,
    /// The identity that will administer and withdraw for the pool.
    pub distribution_authority: Identity,
    /// The signer paying for and requesting the creation.
    pub payer: Identity,
    /// The creator's sale-token balance, from which custody is funded.
    pub creator_watermelon_amount: u64,
}

impl InitializePool {
    /// The receipt mint starts fresh and answers only to the pool's
    /// custody authority: no receipt exists that this pool did not mint,
    /// and nobody else can mint one.
    pub open spec fn mint_constraints_hold(self) -> bool {
        &&& self.redeemable_mint_authority == Some(self.pool_signer)
        &&& self.redeemable_supply == 0
    }

    /// The supplied custody authority is exactly the one derivable for
    /// this pool.
    pub open spec fn derivation_holds(self) -> bool {
        self.derived_pool_signer == Some(self.pool_signer)
    }

    /// Checks that the supplied custody authority matches the one the
    /// host derived for the pool.
    pub fn accounts(&self) -> (r: Result<(), ErrorCode>)
        ensures
            r is Ok <==> self.derivation_holds(),
            r matches Err(e) ==> e == ErrorCode::InvalidNonce,
    {
        match self.derived_pool_signer {
            Some(derived) => {
                if derived == self.pool_signer {
                    Ok(())
                } else {
                    Err(ErrorCode::InvalidNonce)
                }
            },
            None => Err(ErrorCode::InvalidNonce),
        }
    }
}

/// All conditions under which creation goes through.
pub open spec fn creation_permitted(
    policy: DeployerPolicy,
    a: InitializePool,
    num_ido_tokens: u64,
    start_ido_ts: i64,
    end_deposits_ts: i64,
    end_ido_ts: i64,
    withdraw_melon_ts: i64,
    now: i64,
) -> bool {
    &&& a.mint_constraints_hold()
    &&& a.derivation_holds()
    &&& now < start_ido_ts
    &&& times_ordered(start_ido_ts, end_deposits_ts, end_ido_ts, withdraw_melon_ts)
    &&& num_ido_tokens > 0
    &&& policy.permits(a.payer)
    &&& a.creator_watermelon_amount >= num_ido_tokens
}

/// The rejection a creation attempt sees, checked in this order.
pub open spec fn creation_error(
    policy: DeployerPolicy,
    a: InitializePool,
    num_ido_tokens: u64,
    start_ido_ts: i64,
    end_deposits_ts: i64,
    end_ido_ts: i64,
    withdraw_melon_ts: i64,
    now: i64,
) -> ErrorCode {
    if !a.mint_constraints_hold() {
        ErrorCode::InvalidParam
    } else if !a.derivation_holds() {
        ErrorCode::InvalidNonce
    } else if !(now < start_ido_ts) {
        ErrorCode::IdoFuture
    } else if !times_ordered(start_ido_ts, end_deposits_ts, end_ido_ts, withdraw_melon_ts) {
        ErrorCode::SeqTimes
    } else if num_ido_tokens == 0 {
        ErrorCode::InvalidParam
    } else if !policy.permits(a.payer) {
        ErrorCode::Unauthorized
    } else {
        ErrorCode::LowWatermelon
    }
}

/// The record a successful creation persists.
pub open spec fn created_pool(
    a: InitializePool,
    num_ido_tokens: u64,
    nonce: u8,
    start_ido_ts: i64,
    end_deposits_ts: i64,
    end_ido_ts: i64,
    withdraw_melon_ts: i64,
) -> PoolAccount {
    PoolAccount {
        redeemable_mint: a.redeemable_mint,
        pool_watermelon: a.pool_watermelon,
        watermelon_mint: a.watermelon_mint,
        pool_usdc: a.pool_usdc,
        distribution_authority: a.distribution_authority,
        nonce,
        num_ido_tokens,
        start_ido_ts,
        end_deposits_ts,
        end_ido_ts,
        withdraw_melon_ts,
    }
}

/// Creates the pool record and moves the sale tokens into custody.
///
/// Permitted only to an allow-listed deployer, with a future start, an
/// ordered timestamp chain, a positive sale quantity, a fresh receipt mint
/// answering to the pool's custody authority, and a correctly derived
/// custody authority. Rejection changes no balance.
pub fn initialize_pool(
    policy: &DeployerPolicy,
    accounts: &mut InitializePool,
    num_ido_tokens: u64,
    nonce: u8,
    start_ido_ts: i64,
    end_deposits_ts: i64,
    end_ido_ts: i64,
    withdraw_melon_ts: i64,
    now: i64,
) -> (r: Result<PoolAccount, ErrorCode>)
    requires
        old(accounts).pool_watermelon_amount + num_ido_tokens <= u64::MAX,
    ensures
        r is Ok <==> creation_permitted(
            *policy,
            *old(accounts),
            num_ido_tokens,
            start_ido_ts,
            end_deposits_ts,
            end_ido_ts,
            withdraw_melon_ts,
            now,
        ),
        r matches Ok(pool) ==> {
            &&& pool == created_pool(
                *old(accounts),
                num_ido_tokens,
                nonce,
                start_ido_ts,
                end_deposits_ts,
                end_ido_ts,
                withdraw_melon_ts,
            )
            &&& pool.wf()
            &&& *final(accounts) == (InitializePool {
                creator_watermelon_amount: (old(accounts).creator_watermelon_amount
                    - num_ido_tokens) as u64,
                pool_watermelon_amount: (old(accounts).pool_watermelon_amount
                    + num_ido_tokens) as u64,
                ..*old(accounts)
            })
        },
        r matches Err(e) ==> {
            &&& *final(accounts) == *old(accounts)
            &&& e == creation_error(
                *policy,
                *old(accounts),
                num_ido_tokens,
                start_ido_ts,
                end_deposits_ts,
                end_ido_ts,
                withdraw_melon_ts,
                now,
            )
        },
{
    if !(accounts.redeemable_mint_authority == Some(accounts.pool_signer)
        && accounts.redeemable_supply == 0) {
        return Err(ErrorCode::InvalidParam);
    }
    match accounts.accounts() {
        Err(e) => {
            return Err(e);
        },
        Ok(()) => {},
    }
    match future_start_time(now, start_ido_ts) {
        Err(e) => {
            return Err(e);
        },
        Ok(()) => {},
    }
    if !(start_ido_ts < end_deposits_ts && end_deposits_ts <= end_ido_ts
        && end_ido_ts <= withdraw_melon_ts) {
        return Err(ErrorCode::SeqTimes);
    }
    if num_ido_tokens == 0 {
        return Err(ErrorCode::InvalidParam);
    }
    if !policy.is_allowed(&accounts.payer) {
        return Err(ErrorCode::Unauthorized);
    }
    if accounts.creator_watermelon_amount < num_ido_tokens {
        return Err(ErrorCode::LowWatermelon);
    }

    // Move the sale tokens from the creator into pool custody.
    accounts.creator_watermelon_amount = accounts.creator_watermelon_amount - num_ido_tokens;
    accounts.pool_watermelon_amount = accounts.pool_watermelon_amount + num_ido_tokens;

    Ok(PoolAccount {
        redeemable_mint: accounts.redeemable_mint,
        pool_watermelon: accounts.pool_watermelon,
        watermelon_mint: accounts.watermelon_mint,
        pool_usdc: accounts.pool_usdc,
        distribution_authority: accounts.distribution_authority,
        nonce,
        num_ido_tokens,
        start_ido_ts,
        end_deposits_ts,
        end_ido_ts,
        withdraw_melon_ts,
    })
}

// ---------------------------------------------------------------------------
// Timestamp amendment
// ---------------------------------------------------------------------------

/// The signers a timestamp amendment arrives with.
#[derive(Clone, Copy, Debug, PartialEq, Eq, Structural)]
pub struct ModifyIdoTime {
    /// The record's distribution authority, co-signing the amendment.
    pub distribution_authority: Identity,
    /// The signer requesting the amendment.
    pub payer: Identity,
}

/// All conditions under which a timestamp amendment goes through.
pub open spec fn amendment_permitted(
    policy: DeployerPolicy,
    pool: PoolAccount,
    a: ModifyIdoTime,
    start_ido_ts: i64,
    end_deposits_ts: i64,
    end_ido_ts: i64,
    withdraw_melon_ts: i64,
) -> bool {
    &&& a.distribution_authority == pool.distribution_authority
    &&& times_strictly_ordered(start_ido_ts, end_deposits_ts, end_ido_ts, withdraw_melon_ts)
    &&& policy.permits(a.payer)
}

/// The rejection an amendment attempt sees, checked in this order.
pub open spec fn amendment_error(
    policy: DeployerPolicy,
    pool: PoolAccount,
    a: ModifyIdoTime,
    start_ido_ts: i64,
    end_deposits_ts: i64,
    end_ido_ts: i64,
    withdraw_melon_ts: i64,
) -> ErrorCode {
    if a.distribution_authority != pool.distribution_authority {
        ErrorCode::Unauthorized
    } else if !times_strictly_ordered(start_ido_ts, end_deposits_ts, end_ido_ts, withdraw_melon_ts) {
        ErrorCode::SeqTimes
    } else {
        ErrorCode::Unauthorized
    }
}

/// Overwrites the pool's four timestamps with a strictly ordered chain.
///
/// Permitted only to an allow-listed deployer signing together with the
/// record's own distribution authority. Everything else in the record is
/// untouched, and the record stays well formed.
pub fn modify_ido_time(
    policy: &DeployerPolicy,
    pool: &mut PoolAccount,
    accounts: &ModifyIdoTime,
    start_ido_ts: i64,
    end_deposits_ts: i64,
    end_ido_ts: i64,
    withdraw_melon_ts: i64,
) -> (r: Result<(), ErrorCode>)
    requires
        old(pool).wf(),
    ensures
        final(pool).wf(),
        r is Ok <==> amendment_permitted(
            *policy,
            *old(pool),
            *accounts,
            start_ido_ts,
            end_deposits_ts,
            end_ido_ts,
            withdraw_melon_ts,
        ),
        r is Ok ==> *final(pool) == (PoolAccount {
            start_ido_ts,
            end_deposits_ts,
            end_ido_ts,
            withdraw_melon_ts,
            ..*old(pool)
        }),
        r matches Err(e) ==> {
            &&& *final(pool) == *old(pool)
            &&& e == amendment_error(
                *policy,
                *old(pool),
                *accounts,
                start_ido_ts,
                end_deposits_ts,
                end_ido_ts,
                withdraw_melon_ts,
            )
        },
{
    if accounts.distribution_authority != pool.distribution_authority {
        return Err(ErrorCode::Unauthorized);
    }
    if !(start_ido_ts < end_deposits_ts && end_deposits_ts < end_ido_ts
        && end_ido_ts < withdraw_melon_ts) {
        return Err(ErrorCode::SeqTimes);
    }
    if !policy.is_allowed(&accounts.payer) {
        return Err(ErrorCode::Unauthorized);
    }
    pool.start_ido_ts = start_ido_ts;
    pool.end_deposits_ts = end_deposits_ts;
    pool.end_ido_ts = end_ido_ts;
    pool.withdraw_melon_ts = withdraw_melon_ts;
    Ok(())
}

// ---------------------------------------------------------------------------
// Deposit exchange
// ---------------------------------------------------------------------------

/// The balances the deposit exchange touches: the depositor's and the
/// pool's stable-asset balances, the depositor's receipt balance, and the
/// receipt tokens outstanding.
#[derive(Clone, Copy, Debug, PartialEq, Eq, Structural)]
pub struct ExchangeUsdcForRedeemable {
    /// The depositor's stable-asset balance.
    pub user_usdc: u64,
    /// The stable asset held in pool custody.
    pub pool_usdc: u64,
    /// The depositor's receipt-token balance.
    pub user_redeemable: u64,
    /// The receipt tokens outstanding.
    pub redeemable_supply: u64,
}

/// All conditions under which a deposit goes through.
pub open spec fn deposit_permitted(
    pool: PoolAccount,
    a: ExchangeUsdcForRedeemable,
    amount: u64,
    now: i64,
) -> bool {
    &&& open_phase(pool, now)
    &&& amount > 0
    &&& a.user_usdc >= amount
}

/// The rejection a deposit attempt sees, checked in this order.
pub open spec fn deposit_error(
    pool: PoolAccount,
    a: ExchangeUsdcForRedeemable,
    amount: u64,
    now: i64,
) -> ErrorCode {
    if now <= pool.start_ido_ts {
        ErrorCode::StartIdoTime
    } else if now >= pool.end_deposits_ts {
        ErrorCode::EndDepositsTime
    } else if amount == 0 {
        ErrorCode::InvalidParam
    } else {
        ErrorCode::LowUsdc
    }
}

/// The balances a successful deposit of `amount` leaves: the stable asset
/// moves into custody and the same quantity of receipts is minted to the
/// depositor.
pub open spec fn deposit_effect(
    a: ExchangeUsdcForRedeemable,
    amount: u64,
) -> ExchangeUsdcForRedeemable {
    ExchangeUsdcForRedeemable {
        user_usdc: (a.user_usdc - amount) as u64,
        pool_usdc: (a.pool_usdc + amount) as u64,
        user_redeemable: (a.user_redeemable + amount) as u64,
        redeemable_supply: (a.redeemable_supply + amount) as u64,
    }
}

/// Exchanges `amount` of the depositor's stable asset for `amount` receipt
/// tokens, one for one, while the deposit window is open. Rejection
/// changes no balance.
pub fn exchange_usdc_for_redeemable(
    pool: &PoolAccount,
    accounts: &mut ExchangeUsdcForRedeemable,
    amount: u64,
    now: i64,
) -> (r: Result<(), ErrorCode>)
    requires
        old(accounts).pool_usdc + amount <= u64::MAX,
        old(accounts).user_redeemable + amount <= u64::MAX,
        old(accounts).redeemable_supply + amount <= u64::MAX,
    ensures
        r is Ok <==> deposit_permitted(*pool, *old(accounts), amount, now),
        r is Ok ==> *final(accounts) == deposit_effect(*old(accounts), amount),
        r matches Err(e) ==> {
            &&& *final(accounts) == *old(accounts)
            &&& e == deposit_error(*pool, *old(accounts), amount, now)
        },
{
    match unrestricted_phase(pool, now) {
        Err(e) => {
            return Err(e);
        },
        Ok(()) => {},
    }
    if amount == 0 {
        return Err(ErrorCode::InvalidParam);
    }
    if accounts.user_usdc < amount {
        return Err(ErrorCode::LowUsdc);
    }

    // Move the stable asset into custody, then mint receipts one for one.
    accounts.user_usdc = accounts.user_usdc - amount;
    accounts.pool_usdc = accounts.pool_usdc + amount;
    accounts.user_redeemable = accounts.user_redeemable + amount;
    accounts.redeemable_supply = accounts.redeemable_supply + amount;
    Ok(())
}

/// Before settlement redemptions begin, the receipt tokens outstanding
/// equal the stable asset in pool custody: a pool starts with a fresh
/// receipt mint and empty custody, a deposit — the one pre-settlement
/// operation that touches either balance — raises both by the same amount
/// when it goes through and neither when it is rejected, so the parity
/// holds after every pre-settlement call.
pub proof fn lemma_deposit_preserves_receipt_parity(
    pool: PoolAccount,
    a: ExchangeUsdcForRedeemable,
    amount: u64,
    now: i64,
)
    requires
        a.redeemable_supply == a.pool_usdc,
        a.pool_usdc + amount <= u64::MAX,
    ensures
        ({
            let post = if deposit_permitted(pool, a, amount, now) {
                deposit_effect(a, amount)
            } else {
                a
            };
            post.redeemable_supply == post.pool_usdc
        }),
{
}

// ---------------------------------------------------------------------------
// Mid-sale refund (disabled)
// ---------------------------------------------------------------------------

/// The balances the disabled refund path names, kept for interface
/// compatibility; the operation never touches them.
#[derive(Clone, Copy, Debug, PartialEq, Eq, Structural)]
pub struct ExchangeRedeemableForUsdc {
    /// The caller's receipt-token balance.
    pub user_redeemable: u64,
    /// The receipt tokens outstanding.
    pub redeemable_supply: u64,
    /// The stable asset held in pool custody.
    pub pool_usdc: u64,
    /// The caller's stable-asset balance.
    pub user_usdc: u64,
}

/// The mid-sale refund path: reachable only while the sale is locked, and
/// then unconditionally denied. A caller outside the locked phase sees the
/// phase error; a caller correctly inside it sees the not-permitted error.
/// No input ever changes a balance, which taking the accounts by shared
/// reference makes plain.
pub fn exchange_redeemable_for_usdc(
    pool: &PoolAccount,
    _accounts: &ExchangeRedeemableForUsdc,
    _amount: u64,
    now: i64,
) -> (r: Result<(), ErrorCode>)
    ensures
        r is Err,
        r matches Err(e) ==> e == (if locked_phase(*pool, now) {
            ErrorCode::UsdcWithdrawNotAllowed
        } else if now <= pool.start_ido_ts || now < pool.end_deposits_ts {
            ErrorCode::StartIdoTime
        } else {
            ErrorCode::EndIdoTime
        }),
{
    match withdraw_only_phase(pool, now) {
        Err(e) => {
            return Err(e);
        },
        Ok(()) => {},
    }
    Err(ErrorCode::UsdcWithdrawNotAllowed)
}

// ---------------------------------------------------------------------------
// Redemption
// ---------------------------------------------------------------------------

/// The balances a redemption touches: the caller's receipt and sale-token
/// balances, the receipt tokens outstanding, and the sale tokens in
/// custody.
#[derive(Clone, Copy, Debug, PartialEq, Eq, Structural)]
pub struct ExchangeRedeemableForWatermelon {
    /// The caller's receipt-token balance.
    pub user_redeemable: u64,
    /// The receipt tokens outstanding.
    pub redeemable_supply: u64,
    /// The sale tokens held in pool custody.
    pub pool_watermelon: u64,
    /// The caller's sale-token balance.
    pub user_watermelon: u64,
}

/// All conditions under which a redemption goes through.
pub open spec fn redemption_permitted(
    pool: PoolAccount,
    a: ExchangeRedeemableForWatermelon,
    amount: u64,
    now: i64,
) -> bool {
    &&& settled_phase(pool, now)
    &&& amount > 0
    &&& a.user_redeemable >= amount
    &&& a.redeemable_supply > 0
    &&& a.pool_watermelon > 0
}

/// The rejection a redemption attempt sees, checked in this order.
pub open spec fn redemption_error(
    pool: PoolAccount,
    a: ExchangeRedeemableForWatermelon,
    amount: u64,
    now: i64,
) -> ErrorCode {
    if !settled_phase(pool, now) {
        ErrorCode::IdoNotOver
    } else if amount == 0 {
        ErrorCode::InvalidParam
    } else if a.user_redeemable < amount {
        ErrorCode::LowRedeemable
    } else {
        ErrorCode::EmptyPool
    }
}

/// The balances a successful redemption of `amount` leaves: the receipts
/// are burned and the clamped pro-rata share of custody moves to the
/// caller.
pub open spec fn redemption_effect(
    a: ExchangeRedeemableForWatermelon,
    amount: u64,
) -> ExchangeRedeemableForWatermelon {
    let payout = clamped_share(amount as int, a.pool_watermelon as int, a.redeemable_supply as int);
    ExchangeRedeemableForWatermelon {
        user_redeemable: (a.user_redeemable - amount) as u64,
        redeemable_supply: (a.redeemable_supply - amount) as u64,
        pool_watermelon: (a.pool_watermelon - payout) as u64,
        user_watermelon: (a.user_watermelon + payout) as u64,
    }
}

/// Burns `amount` of the caller's receipts and transfers the floor-price
/// clamped pro-rata share of the sale tokens in custody to the caller,
/// once the sale has settled. Empty custody or an empty receipt supply is
/// rejected rather than divided by. Rejection changes no balance.
pub fn exchange_redeemable_for_watermelon(
    pool: &PoolAccount,
    accounts: &mut ExchangeRedeemableForWatermelon,
    amount: u64,
    now: i64,
) -> (r: Result<(), ErrorCode>)
    requires
        // A holder's balance never exceeds the outstanding supply.
        old(accounts).user_redeemable <= old(accounts).redeemable_supply,
        // All tokens of one mint together fit the ledger's balance width.
        old(accounts).user_watermelon + old(accounts).pool_watermelon <= u64::MAX,
    ensures
        r is Ok <==> redemption_permitted(*pool, *old(accounts), amount, now),
        r is Ok ==> *final(accounts) == redemption_effect(*old(accounts), amount),
        r matches Err(e) ==> {
            &&& *final(accounts) == *old(accounts)
            &&& e == redemption_error(*pool, *old(accounts), amount, now)
        },
{
    match ido_over(pool, now) {
        Err(e) => {
            return Err(e);
        },
        Ok(()) => {},
    }
    if amount == 0 {
        return Err(ErrorCode::InvalidParam);
    }
    if accounts.user_redeemable < amount {
        return Err(ErrorCode::LowRedeemable);
    }
    if accounts.redeemable_supply == 0 || accounts.pool_watermelon == 0 {
        return Err(ErrorCode::EmptyPool);
    }

    let payout = redemption_share(amount, accounts.pool_watermelon, accounts.redeemable_supply);

    // Burn the receipts, then move the payout out of custody.
    accounts.user_redeemable = accounts.user_redeemable - amount;
    accounts.redeemable_supply = accounts.redeemable_supply - amount;
    accounts.pool_watermelon = accounts.pool_watermelon - payout;
    accounts.user_watermelon = accounts.user_watermelon + payout;
    Ok(())
}

// ---------------------------------------------------------------------------
// Creator withdrawal
// ---------------------------------------------------------------------------

/// What a stable-asset withdrawal arrives with: the two signers and the
/// balances it touches.
#[derive(Clone, Copy, Debug, PartialEq, Eq, Structural)]
pub struct WithdrawPoolUsdc {
    /// The record's distribution authority, co-signing the withdrawal.
    pub distribution_authority: Identity,
    /// The signer requesting the withdrawal.
    pub payer: Identity,
    /// The stable asset held in pool custody.
    pub pool_usdc: u64,
    /// The creator's stable-asset balance.
    pub creator_usdc: u64,
}

/// What a sale-token withdrawal arrives with: the two signers and the
/// balances it touches.
#[derive(Clone, Copy, Debug, PartialEq, Eq, Structural)]
pub struct WithdrawPoolWatermelon {
    /// The record's distribution authority, co-signing the withdrawal.
    pub distribution_authority: Identity,
    /// The signer requesting the withdrawal.
    pub payer: Identity,
    /// The sale tokens held in pool custody.
    pub pool_watermelon: u64,
    /// The creator's sale-token balance.
    pub creator_watermelon: u64,
}

/// All conditions under which a creator withdrawal goes through: the
/// record's own distribution authority signs, the sale has settled, an
/// allow-listed deployer pays, and custody covers the amount. Nothing
/// reconciles the amount against what redeemers are still owed.
pub open spec fn withdrawal_permitted(
    policy: DeployerPolicy,
    pool: PoolAccount,
    payer: Identity,
    distribution_authority: Identity,
    custody_amount: u64,
    amount: u64,
    now: i64,
) -> bool {
    &&& distribution_authority == pool.distribution_authority
    &&& settled_phase(pool, now)
    &&& policy.permits(payer)
    &&& custody_amount >= amount
}

/// Moves `amount` of the stable asset from pool custody to the creator's
/// account, once the sale has settled. Any amount up to the custody
/// balance goes through, regardless of redemptions still outstanding.
/// Rejection changes no balance.
pub fn withdraw_pool_usdc(
    policy: &DeployerPolicy,
    pool: &PoolAccount,
    accounts: &mut WithdrawPoolUsdc,
    amount: u64,
    now: i64,
) -> (r: Result<(), ErrorCode>)
    requires
        old(accounts).creator_usdc + amount <= u64::MAX,
    ensures
        r is Ok <==> withdrawal_permitted(
            *policy,
            *pool,
            old(accounts).payer,
            old(accounts).distribution_authority,
            old(accounts).pool_usdc,
            amount,
            now,
        ),
        r is Ok ==> *final(accounts) == (WithdrawPoolUsdc {
            pool_usdc: (old(accounts).pool_usdc - amount) as u64,
            creator_usdc: (old(accounts).creator_usdc + amount) as u64,
            ..*old(accounts)
        }),
        r matches Err(e) ==> {
            &&& *final(accounts) == *old(accounts)
            &&& e == (if old(accounts).distribution_authority != pool.distribution_authority {
                ErrorCode::Unauthorized
            } else if !settled_phase(*pool, now) {
                ErrorCode::IdoNotOver
            } else if !policy.permits(old(accounts).payer) {
                ErrorCode::Unauthorized
            } else {
                ErrorCode::LowUsdc
            })
        },
{
    if accounts.distribution_authority != pool.distribution_authority {
        return Err(ErrorCode::Unauthorized);
    }
    match ido_over(pool, now) {
        Err(e) => {
            return Err(e);
        },
        Ok(()) => {},
    }
    if !policy.is_allowed(&accounts.payer) {
        return Err(ErrorCode::Unauthorized);
    }
    if accounts.pool_usdc < amount {
        return Err(ErrorCode::LowUsdc);
    }
    accounts.pool_usdc = accounts.pool_usdc - amount;
    accounts.creator_usdc = accounts.creator_usdc + amount;
    Ok(())
}

/// Moves `amount` of the sale token from pool custody to the creator's
/// account, once the sale has settled. Any amount up to the custody
/// balance goes through, regardless of redemptions still outstanding.
/// Rejection changes no balance.
pub fn withdraw_pool_watermelon(
    policy: &DeployerPolicy,
    pool: &PoolAccount,
    accounts: &mut WithdrawPoolWatermelon,
    amount: u64,
    now: i64,
) -> (r: Result<(), ErrorCode>)
    requires
        old(accounts).creator_watermelon + amount <= u64::MAX,
    ensures
        r is Ok <==> withdrawal_permitted(
            *policy,
            *pool,
            old(accounts).payer,
            old(accounts).distribution_authority,
            old(accounts).pool_watermelon,
            amount,
            now,
        ),
        r is Ok ==> *final(accounts) == (WithdrawPoolWatermelon {
            pool_watermelon: (old(accounts).pool_watermelon - amount) as u64,
            creator_watermelon: (old(accounts).creator_watermelon + amount) as u64,
            ..*old(accounts)
        }),
        r matches Err(e) ==> {
            &&& *final(accounts) == *old(accounts)
            &&& e == (if old(accounts).distribution_authority != pool.distribution_authority {
                ErrorCode::Unauthorized
            } else if !settled_phase(*pool, now) {
                ErrorCode::IdoNotOver
            } else if !policy.permits(old(accounts).payer) {
                ErrorCode::Unauthorized
            } else {
                ErrorCode::LowWatermelon
            })
        },
{
    if accounts.distribution_authority != pool.distribution_authority {
        return Err(ErrorCode::Unauthorized);
    }
    match ido_over(pool, now) {
        Err(e) => {
            return Err(e);
        },
        Ok(()) => {},
    }
    if !policy.is_allowed(&accounts.payer) {
        return Err(ErrorCode::Unauthorized);
    }
    if accounts.pool_watermelon < amount {
        return Err(ErrorCode::LowWatermelon);
    }
    accounts.pool_watermelon = accounts.pool_watermelon - amount;
    accounts.creator_watermelon = accounts.creator_watermelon + amount;
    Ok(())
}

} // verus!
