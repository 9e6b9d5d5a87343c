//! Pool creation and timestamp amendment.

use ido_pool::errors::ErrorCode;
use ido_pool::identity::{DeployerPolicy, Identity};
use ido_pool::ops::{initialize_pool, modify_ido_time, InitializePool, ModifyIdoTime};
use ido_pool::pool::PoolAccount;

fn deployer() -> Identity {
    Identity { key: 42 }
}

fn policy() -> DeployerPolicy {
    DeployerPolicy { allowed: vec![deployer()] }
}

fn accounts() -> InitializePool {
    let signer = Identity { key: 9 };
    InitializePool {
        pool_signer: signer,
        derived_pool_signer: Some(signer),
        redeemable_mint: Identity { key: 1 },
        redeemable_mint_authority: Some(signer),
        redeemable_supply: 0,
        watermelon_mint: Identity { key: 2 },
        pool_watermelon: Identity { key: 3 },
        pool_watermelon_amount: 0,
        pool_usdc: Identity { key: 4 },
        distribution_authority: Identity { key: 5 },
        payer: deployer(),
        creator_watermelon_amount: 5_000_000,
    }
}

#[test]
fn valid_creation_persists_ordered_timestamps() {
    let mut a = accounts();
    let pool = initialize_pool(&policy(), &mut a, 1_000_000, 7, 100, 200, 300, 400, 50).unwrap();
    assert!(pool.start_ido_ts < pool.end_deposits_ts);
    assert!(pool.end_deposits_ts <= pool.end_ido_ts);
    assert!(pool.end_ido_ts <= pool.withdraw_melon_ts);
    assert!(pool.num_ido_tokens > 0);
    assert_eq!(pool.num_ido_tokens, 1_000_000);
    assert_eq!(pool.nonce, 7);
    assert_eq!(pool.distribution_authority, Identity { key: 5 });
    // The sale tokens moved from the creator into custody.
    assert_eq!(a.creator_watermelon_amount, 4_000_000);
    assert_eq!(a.pool_watermelon_amount, 1_000_000);
}

#[test]
fn creation_allows_equal_late_boundaries() {
    let mut a = accounts();
    let pool = initialize_pool(&policy(), &mut a, 10, 7, 100, 200, 200, 200, 50).unwrap();
    assert_eq!(pool.end_ido_ts, 200);
    assert_eq!(pool.withdraw_melon_ts, 200);
}

#[test]
fn creation_with_bad_ordering_is_rejected_without_transfer() {
    let mut a = accounts();
    let r = initialize_pool(&policy(), &mut a, 1_000_000, 7, 200, 100, 300, 400, 50);
    assert_eq!(r.unwrap_err(), ErrorCode::SeqTimes);
    assert_eq!(a.creator_watermelon_amount, 5_000_000);
    assert_eq!(a.pool_watermelon_amount, 0);
}

#[test]
fn creation_with_zero_quantity_is_rejected_without_transfer() {
    let mut a = accounts();
    let r = initialize_pool(&policy(), &mut a, 0, 7, 100, 200, 300, 400, 50);
    assert_eq!(r.unwrap_err(), ErrorCode::InvalidParam);
    assert_eq!(a.creator_watermelon_amount, 5_000_000);
    assert_eq!(a.pool_watermelon_amount, 0);
}

#[test]
fn creation_must_start_in_the_future() {
    let mut a = accounts();
    let r = initialize_pool(&policy(), &mut a, 1_000_000, 7, 100, 200, 300, 400, 100);
    assert_eq!(r.unwrap_err(), ErrorCode::IdoFuture);
}

#[test]
fn creation_by_unlisted_payer_is_rejected_before_any_change() {
    let mut a = accounts();
    a.payer = Identity { key: 77 };
    let r = initialize_pool(&policy(), &mut a, 1_000_000, 7, 100, 200, 300, 400, 50);
    assert_eq!(r.unwrap_err(), ErrorCode::Unauthorized);
    assert_eq!(a, {
        let mut fresh = accounts();
        fresh.payer = Identity { key: 77 };
        fresh
    });
}

#[test]
fn creation_with_mismatched_custody_authority_is_rejected() {
    let mut a = accounts();
    a.derived_pool_signer = Some(Identity { key: 1000 });
    let r = initialize_pool(&policy(), &mut a, 1_000_000, 7, 100, 200, 300, 400, 50);
    assert_eq!(r.unwrap_err(), ErrorCode::InvalidNonce);
}

#[test]
fn creation_with_failed_derivation_is_rejected() {
    let mut a = accounts();
    a.derived_pool_signer = None;
    let r = initialize_pool(&policy(), &mut a, 1_000_000, 7, 100, 200, 300, 400, 50);
    assert_eq!(r.unwrap_err(), ErrorCode::InvalidNonce);
}

#[test]
fn creation_with_used_receipt_mint_is_rejected() {
    let mut a = accounts();
    a.redeemable_supply = 1;
    let r = initialize_pool(&policy(), &mut a, 1_000_000, 7, 100, 200, 300, 400, 50);
    assert_eq!(r.unwrap_err(), ErrorCode::InvalidParam);
}

#[test]
fn creation_with_foreign_mint_authority_is_rejected() {
    let mut a = accounts();
    a.redeemable_mint_authority = Some(Identity { key: 1234 });
    let r = initialize_pool(&policy(), &mut a, 1_000_000, 7, 100, 200, 300, 400, 50);
    assert_eq!(r.unwrap_err(), ErrorCode::InvalidParam);
}

#[test]
fn creation_needs_a_funded_creator() {
    let mut a = accounts();
    let r = initialize_pool(&policy(), &mut a, 5_000_001, 7, 100, 200, 300, 400, 50);
    assert_eq!(r.unwrap_err(), ErrorCode::LowWatermelon);
    assert_eq!(a.creator_watermelon_amount, 5_000_000);
}

fn made_pool() -> PoolAccount {
    let mut a = accounts();
    initialize_pool(&policy(), &mut a, 1_000_000, 7, 100, 200, 300, 400, 50).unwrap()
}

#[test]
fn amendment_overwrites_the_four_timestamps() {
    let mut pool = made_pool();
    let signers = ModifyIdoTime { distribution_authority: pool.distribution_authority, payer: deployer() };
    let r = modify_ido_time(&policy(), &mut pool, &signers, 110, 210, 310, 410);
    assert!(r.is_ok());
    assert_eq!(pool.start_ido_ts, 110);
    assert_eq!(pool.end_deposits_ts, 210);
    assert_eq!(pool.end_ido_ts, 310);
    assert_eq!(pool.withdraw_melon_ts, 410);
    assert_eq!(pool.num_ido_tokens, 1_000_000);
}

#[test]
fn amendment_demands_strict_ordering() {
    let mut pool = made_pool();
    let signers = ModifyIdoTime { distribution_authority: pool.distribution_authority, payer: deployer() };
    let r = modify_ido_time(&policy(), &mut pool, &signers, 110, 210, 210, 410);
    assert_eq!(r.unwrap_err(), ErrorCode::SeqTimes);
    assert_eq!(pool.start_ido_ts, 100);
    assert_eq!(pool.end_deposits_ts, 200);
}

#[test]
fn amendment_by_unlisted_payer_is_rejected() {
    let mut pool = made_pool();
    let signers = ModifyIdoTime { distribution_authority: pool.distribution_authority, payer: Identity { key: 77 } };
    let r = modify_ido_time(&policy(), &mut pool, &signers, 110, 210, 310, 410);
    assert_eq!(r.unwrap_err(), ErrorCode::Unauthorized);
    assert_eq!(pool.start_ido_ts, 100);
}

#[test]
fn amendment_with_foreign_authority_is_rejected() {
    let mut pool = made_pool();
    let signers = ModifyIdoTime { distribution_authority: Identity { key: 1234 }, payer: deployer() };
    let r = modify_ido_time(&policy(), &mut pool, &signers, 110, 210, 310, 410);
    assert_eq!(r.unwrap_err(), ErrorCode::Unauthorized);
    assert_eq!(pool.start_ido_ts, 100);
}

#[test]
fn any_listed_deployer_may_create() {
    let other = Identity { key: 43 };
    let roster = DeployerPolicy { allowed: vec![deployer(), other] };
    let mut a = accounts();
    a.payer = other;
    let pool = initialize_pool(&roster, &mut a, 1_000_000, 7, 100, 200, 300, 400, 50).unwrap();
    assert_eq!(pool.num_ido_tokens, 1_000_000);
}

#[test]
fn an_empty_roster_permits_nobody() {
    let roster = DeployerPolicy { allowed: vec![] };
    let mut a = accounts();
    let r = initialize_pool(&roster, &mut a, 1_000_000, 7, 100, 200, 300, 400, 50);
    assert_eq!(r.unwrap_err(), ErrorCode::Unauthorized);
}
