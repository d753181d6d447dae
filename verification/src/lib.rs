//! Core logic of a time-boxed rental marketplace for unique digital land
//! parcels: a caller pays to mint a temporary rental token tied to a parcel,
//! the payment is held in an escrow record, and at expiry the held funds are
//! split between a platform fee account and whoever is entitled to receive
//! payment (the parcel's direct owner, or the seller of an auction that
//! currently holds the parcel).
//!
//! The ledger runtime that moves funds, the Merkle proof verifier of the
//! compressed-asset registry and the auction account store are external
//! collaborators: this crate computes every decision (fees, time windows,
//! leaf reconstruction, receiver resolution, escrow bookkeeping) and leaves
//! the actual transfers and the proof-verification call to its caller.

pub mod auction;
pub mod config;
pub mod constants;
pub mod errors;
pub mod escrow;
pub mod fees;
pub mod identity;
pub mod leaf;
pub mod mint_rental_token;
pub mod timestamps;
pub mod transfer_on_expiry;
pub mod transfer_rental_token;
