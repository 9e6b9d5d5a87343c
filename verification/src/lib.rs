//! A time-windowed token sale pool ("IDO pool").
//!
//! Participants deposit a stable asset during an open window and receive
//! receipt tokens one-for-one; once the sale settles they redeem receipts
//! for a pro-rata, floor-price-clamped share of the sale tokens held in
//! custody. This crate holds the pool's decision and accounting logic on
//! plain values: the host environment that stores accounts, authenticates
//! signers, derives the custody authority and supplies the clock sits
//! outside it and hands these functions the values they act on.

pub mod errors;
pub mod identity;
pub mod pool;
pub mod phases;
pub mod quantity;
pub mod redemption;
pub mod ops;
