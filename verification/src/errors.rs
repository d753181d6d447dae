//! Error taxonomy of the rental marketplace core.
//!
//! Every error is terminal for the enclosing operation: the caller rolls the
//! whole transaction back and surfaces the error verbatim.

use vstd::prelude::*;

verus! {

/// All failures that the marketplace core can report.
#[derive(Clone, Copy, Debug, PartialEq, Eq, Structural)]
pub enum CustomErrors {
    /// The configuration singleton was already initialized.
    AlreadyInitialized,
    /// The caller is not the centralized operator.
    InvalidAuthority,
    /// The payment receiver is not the identity entitled to the payout.
    InvalidReceiver,
    /// The caller does not have enough funds for the transfer.
    InsufficientFunds,
    /// The supplied land parcel leaf data is invalid.
    InvalidLandNFTData,
    /// The escrow record reference does not match any known record, or a
    /// record with the same key already exists.
    InvalidRentalAddressPassed,
    /// The proof accounts passed along with a settlement are malformed.
    InvalidRemainingAccountsPassed,
    /// The minutes component of the supplied time is neither 00 nor 30.
    InvalidTime,
    /// The supplied ISO-8601 time string does not parse.
    InvalidTimeString,
    /// The supplied time is too far in the future.
    TimeToFarInFuture,
    /// The token mint is not the trusted mint of the configuration.
    InvalidMint,
    /// Settlement was attempted before the rental expired.
    InvalidTransferTime,
    /// A supplied creator identity differs from the configured one.
    InvalidReceivedCreator,
    /// A supplied creator hash differs from the configured creators' hash.
    InvalidReceivedCreatorHash,
    /// An integer computation exceeded the 64-bit range.
    ArithmeticOverflow,
}

} // verus!
