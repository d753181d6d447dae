//! Ownership leaves of the compressed-asset registry.
//!
//! A parcel's ownership state lives as a leaf of a Merkle tree. A caller
//! who wants a settlement supplies a claim describing that leaf; the core
//! recomputes the asset identity and the leaf hash from the claim and hands
//! them to the external proof verifier. The two digests (the asset identity
//! derivation and the keccak leaf hash) are computed by the mpl-bubblegum
//! crate and are functions of their arguments alone.

use vstd::prelude::*;

use crate::identity::Identity;

verus! {

/// A caller-supplied description of an ownership leaf, checked against a
/// Merkle root at settlement.
#[derive(Clone, Copy, Debug)]
pub struct LeafData {
    /// Position of the leaf in the tree, handed to the proof verifier.
    pub index: u32,
    /// Leaf nonce, part of the asset identity derivation.
    pub nonce: u64,
    /// The Merkle root the proof is checked against.
    pub root: [u8; 32],
    /// Hash of the asset's metadata.
    pub hash: [u8; 32],
    /// Hash of the asset's creator list.
    pub creator_hash: [u8; 32],
}

/// One creator entry of an asset's creator list.
#[derive(Clone, Copy, Debug)]
pub struct CreatorInfo {
    pub address: Identity,
    pub verified: bool,
    /// Percentage share of royalties.
    pub share: u8,
}

/// The asset identity that the registry derives for leaf `nonce` of the
/// tree at `tree`.
pub uninterp spec fn spec_asset_id(tree: Seq<u8>, nonce: u64) -> Seq<u8>;

/// The registry's hash of the ownership leaf with these fields.
pub uninterp spec fn spec_leaf_hash(
    id: Seq<u8>,
    owner: Seq<u8>,
    delegate: Seq<u8>,
    nonce: u64,
    data_hash: Seq<u8>,
    creator_hash: Seq<u8>,
) -> Seq<u8>;

/// The registry's hash of a creator list.
pub uninterp spec fn spec_creators_hash(creators: Seq<CreatorInfo>) -> Seq<u8>;

/// Relies on `mpl_bubblegum::utils::get_asset_id`: the derived address is a
/// function of the tree address and the nonce alone.
#[verifier::external_body]
pub(crate) fn compute_asset_id(tree: &Identity, nonce: u64) -> (r: Identity)
    ensures
        r@ == spec_asset_id(tree@, nonce),
{
    let tree_key = solana_program::pubkey::Pubkey::new_from_array(tree.bytes);
    Identity { bytes: mpl_bubblegum::utils::get_asset_id(&tree_key, nonce).to_bytes() }
}

/// Relies on `mpl_bubblegum::types::LeafSchema::hash`: the keccak digest of
/// a version-1 leaf is a function of its six fields alone.
#[verifier::external_body]
pub(crate) fn compute_leaf_hash(
    id: &Identity,
    owner: &Identity,
    delegate: &Identity,
    nonce: u64,
    data_hash: &[u8; 32],
    creator_hash: &[u8; 32],
) -> (r: [u8; 32])
    ensures
        r@ == spec_leaf_hash(id@, owner@, delegate@, nonce, data_hash@, creator_hash@),
{
    let leaf = mpl_bubblegum::types::LeafSchema::V1 {
        id: solana_program::pubkey::Pubkey::new_from_array(id.bytes),
        owner: solana_program::pubkey::Pubkey::new_from_array(owner.bytes),
        delegate: solana_program::pubkey::Pubkey::new_from_array(delegate.bytes),
        nonce,
        data_hash: *data_hash,
        creator_hash: *creator_hash,
    };
    leaf.hash()
}

/// Relies on `mpl_bubblegum::hash::hash_creators`: the keccak digest of a
/// creator list is a function of the entries alone.
#[verifier::external_body]
pub(crate) fn compute_creators_hash(creators: &Vec<CreatorInfo>) -> (r: [u8; 32])
    ensures
        r@ == spec_creators_hash(creators@),
{
    let entries: Vec<mpl_bubblegum::types::Creator> = creators
        .iter()
        .map(|c| mpl_bubblegum::types::Creator {
            address: solana_program::pubkey::Pubkey::new_from_array(c.address.bytes),
            verified: c.verified,
            share: c.share,
        })
        .collect();
    mpl_bubblegum::hash::hash_creators(&entries)
}

/// The hash of the ownership leaf that a claim describes, for the parcel
/// held as leaf `claim.nonce` of the tree at `merkle_tree` and owned by
/// `owner` with delegate `delegate`.
pub open spec fn spec_claimed_leaf_hash(
    merkle_tree: Seq<u8>,
    owner: Seq<u8>,
    delegate: Seq<u8>,
    claim: LeafData,
) -> Seq<u8> {
    spec_leaf_hash(
        spec_asset_id(merkle_tree, claim.nonce),
        owner,
        delegate,
        claim.nonce,
        claim.hash@,
        claim.creator_hash@,
    )
}

/// Reconstructs the leaf hash a settlement claim describes; the external
/// proof verifier is asked to check this hash against `claim.root` at
/// position `claim.index`.
pub fn reconstruct_leaf_hash(
    merkle_tree: &Identity,
    owner: &Identity,
    delegate: &Identity,
    claim: &LeafData,
) -> (r: [u8; 32])
    ensures
        r@ == spec_claimed_leaf_hash(merkle_tree@, owner@, delegate@, *claim),
{
    let asset_id = compute_asset_id(merkle_tree, claim.nonce);
    compute_leaf_hash(&asset_id, owner, delegate, claim.nonce, &claim.hash, &claim.creator_hash)
}

} // verus!
