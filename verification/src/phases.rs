//! Phase predicates: pure decisions over the pool's timestamps and the
//! current time, one gate per operation. Every gated operation evaluates
//! its gate before touching any balance, so a gate failure has no effect.
//!
//! Between the sale's end and the withdraw unlock no gate opens: in that
//! interval, and on the boundary instants themselves, every gated
//! operation is rejected.

use vstd::prelude::*;

use crate::errors::ErrorCode;
use crate::pool::PoolAccount;

verus! {

/// The deposit window is open: strictly between the sale start and the
/// close of deposits.
pub open spec fn open_phase(pool: PoolAccount, now: i64) -> bool {
    pool.start_ido_ts < now < pool.end_deposits_ts
}

/// The sale is locked: deposits have closed but the sale has not ended.
pub open spec fn locked_phase(pool: PoolAccount, now: i64) -> bool {
    &&& pool.start_ido_ts < now < pool.end_ido_ts
    &&& pool.end_deposits_ts <= now
}

/// The sale has settled: redemption and creator withdrawal are unlocked.
pub open spec fn settled_phase(pool: PoolAccount, now: i64) -> bool {
    pool.withdraw_melon_ts < now
}

/// Gate for pool creation: the sale must start in the future.
pub fn future_start_time(now: i64, start_ido_ts: i64) -> (r: Result<(), ErrorCode>)
    ensures
        r is Ok <==> now < start_ido_ts,
        r matches Err(e) ==> e == ErrorCode::IdoFuture,
{
    if !(now < start_ido_ts) {
        return Err(ErrorCode::IdoFuture);
    }
    Ok(())
}

/// Gate for deposits: permitted only while the deposit window is open.
pub fn unrestricted_phase(pool: &PoolAccount, now: i64) -> (r: Result<(), ErrorCode>)
    ensures
        r is Ok <==> open_phase(*pool, now),
        r matches Err(e) ==> e == (if now <= pool.start_ido_ts {
            ErrorCode::StartIdoTime
        } else {
            ErrorCode::EndDepositsTime
        }),
{
    if !(pool.start_ido_ts < now) {
        return Err(ErrorCode::StartIdoTime);
    }
    if !(now < pool.end_deposits_ts) {
        return Err(ErrorCode::EndDepositsTime);
    }
    Ok(())
}

/// Gate for the mid-sale refund path: permitted only while the sale is
/// locked. Before the refund window opens the caller sees the not-started
/// error; once the sale has ended, the ended error.
pub fn withdraw_only_phase(pool: &PoolAccount, now: i64) -> (r: Result<(), ErrorCode>)
    ensures
        r is Ok <==> locked_phase(*pool, now),
        r matches Err(e) ==> e == (if now <= pool.start_ido_ts || now < pool.end_deposits_ts {
            ErrorCode::StartIdoTime
        } else {
            ErrorCode::EndIdoTime
        }),
{
    if !(pool.start_ido_ts < now && pool.end_deposits_ts <= now) {
        return Err(ErrorCode::StartIdoTime);
    }
    if !(now < pool.end_ido_ts) {
        return Err(ErrorCode::EndIdoTime);
    }
    Ok(())
}

/// Gate for redemption and creator withdrawal: permitted only once the
/// sale has settled.
pub fn ido_over(pool: &PoolAccount, now: i64) -> (r: Result<(), ErrorCode>)
    ensures
        r is Ok <==> settled_phase(*pool, now),
        r matches Err(e) ==> e == ErrorCode::IdoNotOver,
{
    if !(pool.withdraw_melon_ts < now) {
        return Err(ErrorCode::IdoNotOver);
    }
    Ok(())
}

} // verus!
