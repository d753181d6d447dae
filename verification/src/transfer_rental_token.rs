//! Transferring a live rental token.
//!
//! A rental token may change hands before expiry. The registry only moves
//! a leaf whose proof checks out, but the sender's claim is validated
//! here first: the sender must be the leaf's owner, and the leaf hash the
//! sender claims must equal the hash reconstructed from the asset
//! identity, the ownership fields and the metadata digests. The caller
//! computes the two metadata digests (the registry's metadata and creator
//! hashes) and performs the registry's transfer call with the returned
//! leaf hash.

use vstd::prelude::*;

use crate::errors::CustomErrors;
use crate::identity::{bytes32_eq, Identity};
use crate::leaf::{compute_asset_id, compute_leaf_hash, spec_asset_id, spec_leaf_hash};

verus! {

/// Validates a rental-token transfer claim and reconstructs the leaf
/// hash to hand to the registry: the sender must own the leaf, and the
/// claimed hash must equal the reconstruction; any mismatch rejects the
/// claimed leaf data.
pub fn handle_transfer_rental_token(
    sender: &Identity,
    owner: &Identity,
    delegate: &Identity,
    merkle_tree: &Identity,
    nonce: u64,
    data_hash: &[u8; 32],
    creator_hash: &[u8; 32],
    claimed_leaf_hash: &[u8; 32],
) -> (r: Result<[u8; 32], CustomErrors>)
    ensures
        ({
            let reconstructed = spec_leaf_hash(
                spec_asset_id(merkle_tree@, nonce),
                owner@,
                delegate@,
                nonce,
                data_hash@,
                creator_hash@,
            );
            if owner@ != sender@ {
                r == Err::<[u8; 32], CustomErrors>(CustomErrors::InvalidLandNFTData)
            } else if claimed_leaf_hash@ != reconstructed {
                r == Err::<[u8; 32], CustomErrors>(CustomErrors::InvalidLandNFTData)
            } else {
                r matches Ok(h) && h@ == reconstructed
            }
        }),
{
    if !owner.equals(sender) {
        return Err(CustomErrors::InvalidLandNFTData);
    }
    let asset_id = compute_asset_id(merkle_tree, nonce);
    let reconstructed = compute_leaf_hash(&asset_id, owner, delegate, nonce, data_hash, creator_hash);
    if !bytes32_eq(claimed_leaf_hash, &reconstructed) {
        return Err(CustomErrors::InvalidLandNFTData);
    }
    Ok(reconstructed)
}

} // verus!
