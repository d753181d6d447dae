//! Auction records.
//!
//! When a parcel is held by the auction subsystem, the account that owns it
//! is an auction record created by the token owner. The record is external
//! and read-only to this core: settlement only reads its `seller` to decide
//! who is entitled to the payout. The caller deserializes the account's
//! bytes and hands the record over as plain values.

use vstd::prelude::*;

use crate::identity::Identity;

verus! {

/// The most recent state of an auction, as the auction subsystem stores it.
#[derive(Clone, Copy, Debug)]
pub struct Auction {
    pub bump: [u8; 1],
    pub nonce_bytes: [u8; 8],
    pub asset_id: Identity,
    pub merkle_tree: Identity,
    pub initial_price: u64,
    /// Timestamp until which the auction accepts bids.
    pub end_time: i64,
    /// Owner of the asset and creator of the auction; the payout receiver
    /// when the parcel is auction-held.
    pub seller: Identity,
    /// The account that paid rent for the auction's own accounts.
    pub rent_payer: Identity,
    /// The mint the auction's bids are denominated in.
    pub payment_currency: Identity,
    pub bidder: Option<Identity>,
    pub current_price: u64,
    pub filled_amount: u64,
    pub top_up_bid_deadline: i64,
    pub asset_verification_deadline: i64,
    pub is_verified: bool,
}

} // verus!
