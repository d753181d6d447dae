//! Well-known program identities of the host ledger.
//!
//! These are the fixed addresses of the programs that the marketplace
//! cooperates with: the compressed-asset registry (Bubblegum), the Merkle
//! account-compression program, the no-op log wrapper, and the system
//! program that owns plain wallet accounts. Each address is the base58
//! decoding of the program's published identity.

use vstd::prelude::*;

use crate::identity::Identity;

verus! {

/// The compressed-asset registry program,
/// `BGUMAp9Gq7iTEuizy4pqaxsTyUCBK68MDfK752saRPUY`.
#[derive(Clone, Copy, Debug)]
pub struct MplBubblegumProgramAccount;

impl MplBubblegumProgramAccount {
    pub fn id() -> (r: Identity)
        ensures
            r@ == spec_mpl_bubblegum_id(),
    {
        Identity {
            bytes: [
                152u8, 139, 128, 235, 121, 53, 40, 105, 178, 36, 116, 95, 89, 221, 191, 138, 38,
                88, 202, 19, 220, 104, 129, 33, 38, 53, 28, 174, 7, 193, 165, 165,
            ],
        }
    }
}

/// Address bytes of the compressed-asset registry program.
pub open spec fn spec_mpl_bubblegum_id() -> Seq<u8> {
    seq![
        152u8, 139, 128, 235, 121, 53, 40, 105, 178, 36, 116, 95, 89, 221, 191, 138, 38, 88, 202,
        19, 220, 104, 129, 33, 38, 53, 28, 174, 7, 193, 165, 165,
    ]
}

/// The Merkle account-compression program,
/// `cmtDvXumGCrqC1Age74AVPhSRVXJMd8PJS91L8KbNCK`.
#[derive(Clone, Copy, Debug)]
pub struct SplAccountCompressionProgramAccount;

impl SplAccountCompressionProgramAccount {
    pub fn id() -> (r: Identity)
        ensures
            r@ == spec_spl_account_compression_id(),
    {
        Identity {
            bytes: [
                9u8, 42, 19, 238, 149, 196, 28, 186, 8, 166, 127, 90, 198, 126, 141, 247, 225,
                218, 17, 98, 94, 29, 100, 19, 127, 143, 79, 35, 131, 3, 127, 20,
            ],
        }
    }
}

/// Address bytes of the Merkle account-compression program.
pub open spec fn spec_spl_account_compression_id() -> Seq<u8> {
    seq![
        9u8, 42, 19, 238, 149, 196, 28, 186, 8, 166, 127, 90, 198, 126, 141, 247, 225, 218, 17,
        98, 94, 29, 100, 19, 127, 143, 79, 35, 131, 3, 127, 20,
    ]
}

/// The no-op log wrapper program,
/// `noopb9bkMVfRPU8AsbpTUg8AQkHtKwMYZiFUjNRtMmV`.
#[derive(Clone, Copy, Debug)]
pub struct NoopProgramAccount;

impl NoopProgramAccount {
    pub fn id() -> (r: Identity)
        ensures
            r@ == spec_noop_id(),
    {
        Identity {
            bytes: [
                11u8, 188, 15, 192, 187, 71, 202, 47, 116, 196, 17, 46, 148, 171, 19, 207, 163,
                198, 52, 229, 220, 23, 234, 203, 3, 205, 26, 35, 205, 126, 120, 124,
            ],
        }
    }
}

/// Address bytes of the no-op log wrapper program.
pub open spec fn spec_noop_id() -> Seq<u8> {
    seq![
        11u8, 188, 15, 192, 187, 71, 202, 47, 116, 196, 17, 46, 148, 171, 19, 207, 163, 198, 52,
        229, 220, 23, 234, 203, 3, 205, 26, 35, 205, 126, 120, 124,
    ]
}

/// The token metadata program,
/// `metaqbxxUerdq28cj1RbAWkYQm3ybzjb6a8bt518x1s`, which the registry's
/// minting call cooperates with.
#[derive(Clone, Copy, Debug)]
pub struct Metadata;

impl Metadata {
    pub fn id() -> (r: Identity)
        ensures
            r@ == spec_token_metadata_id(),
    {
        Identity {
            bytes: [
                11u8, 112, 101, 177, 227, 209, 124, 69, 56, 157, 82, 127, 107, 4, 195, 205, 88,
                184, 108, 115, 26, 160, 253, 181, 73, 182, 209, 188, 3, 248, 41, 70,
            ],
        }
    }
}

/// Address bytes of the token metadata program.
pub open spec fn spec_token_metadata_id() -> Seq<u8> {
    seq![
        11u8, 112, 101, 177, 227, 209, 124, 69, 56, 157, 82, 127, 107, 4, 195, 205, 88, 184, 108,
        115, 26, 160, 253, 181, 73, 182, 209, 188, 3, 248, 41, 70,
    ]
}

/// The system program, `11111111111111111111111111111111`, which owns every
/// plain wallet account. An account owned by it is a simple wallet, not a
/// program-held asset.
pub fn system_program_id() -> (r: Identity)
    ensures
        r@ == spec_system_program_id(),
{
    Identity { bytes: [0u8; 32] }
}

/// Address bytes of the system program: all zeroes.
pub open spec fn spec_system_program_id() -> Seq<u8> {
    seq![0u8; 32]
}

} // verus!
