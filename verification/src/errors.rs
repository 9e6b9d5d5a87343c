//! The pool's error taxonomy: every operation rejects with exactly one of
//! these, and a rejected call leaves all balances and the pool record
//! unchanged.

use vstd::prelude::*;

verus! {

/// Why an operation was rejected.
#[derive(Clone, Copy, Debug, PartialEq, Eq, Structural)]
pub enum ErrorCode {
    /// The sale must start in the future.
    IdoFuture,
    /// The supplied timestamps do not form the required chain.
    SeqTimes,
    /// The operation's window has not started.
    StartIdoTime,
    /// The deposit window has ended.
    EndDepositsTime,
    /// The sale has ended.
    EndIdoTime,
    /// The sale has not settled yet.
    IdoNotOver,
    /// The stable-asset balance is below the requested amount.
    LowUsdc,
    /// The receipt-token balance is below the requested amount.
    LowRedeemable,
    /// The sale-token balance is below the requested amount.
    LowWatermelon,
    /// The supplied custody authority is not the one derived for the pool.
    InvalidNonce,
    /// A quantity was zero, or a supplied account breaks a creation invariant.
    InvalidParam,
    /// The caller is not permitted to administer this pool.
    Unauthorized,
    /// The mid-sale refund path is disabled.
    UsdcWithdrawNotAllowed,
    /// Redemption is undefined while custody or receipt supply is empty.
    EmptyPool,
}

impl ErrorCode {
    /// The message each rejection surfaces to the caller.
    pub open spec fn message_spec(self) -> Seq<char> {
        match self {
            ErrorCode::IdoFuture => "IDO must start in the future"@,
            ErrorCode::SeqTimes => "IDO times are non-sequential"@,
            ErrorCode::StartIdoTime => "IDO has not started"@,
            ErrorCode::EndDepositsTime => "Deposits period has ended"@,
            ErrorCode::EndIdoTime => "IDO has ended"@,
            ErrorCode::IdoNotOver => "IDO has not finished yet"@,
            ErrorCode::LowUsdc => "Insufficient USDC"@,
            ErrorCode::LowRedeemable => "Insufficient redeemable tokens"@,
            ErrorCode::LowWatermelon => "Insufficient watermelon tokens"@,
            ErrorCode::InvalidNonce => "Given nonce is invalid"@,
            ErrorCode::InvalidParam => "Invalid param"@,
            ErrorCode::Unauthorized => "Caller is not authorized"@,
            ErrorCode::UsdcWithdrawNotAllowed => "Cannot withdraw USDC after depositing"@,
            ErrorCode::EmptyPool => "Pool custody or receipt supply is empty"@,
        }
    }

    /// Surfaces the rejection's message.
    pub fn message(&self) -> (m: &'static str)
        ensures
            m@ == self.message_spec(),
    {
        match self {
            ErrorCode::IdoFuture => "IDO must start in the future",
            ErrorCode::SeqTimes => "IDO times are non-sequential",
            ErrorCode::StartIdoTime => "IDO has not started",
            ErrorCode::EndDepositsTime => "Deposits period has ended",
            ErrorCode::EndIdoTime => "IDO has ended",
            ErrorCode::IdoNotOver => "IDO has not finished yet",
            ErrorCode::LowUsdc => "Insufficient USDC",
            ErrorCode::LowRedeemable => "Insufficient redeemable tokens",
            ErrorCode::LowWatermelon => "Insufficient watermelon tokens",
            ErrorCode::InvalidNonce => "Given nonce is invalid",
            ErrorCode::InvalidParam => "Invalid param",
            ErrorCode::Unauthorized => "Caller is not authorized",
            ErrorCode::UsdcWithdrawNotAllowed => "Cannot withdraw USDC after depositing",
            ErrorCode::EmptyPool => "Pool custody or receipt supply is empty",
        }
    }
}

} // verus!
