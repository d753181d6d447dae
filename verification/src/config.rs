//! Configuration store.
//!
//! A process-wide singleton holds the pricing parameters and the trusted
//! addresses of the marketplace. It is created once and mutated only by the
//! centralized operator; an update overwrites exactly the fields that are
//! present in the payload and leaves the rest unchanged.
//!
//! The admin quota — the fraction of every payment retained as platform
//! fee — is held in basis points (parts per 10,000), so that every fee
//! computation is exact integer arithmetic.

use vstd::prelude::*;

use crate::errors::CustomErrors;
use crate::fees::QUOTA_DENOMINATOR;
use crate::identity::Identity;
use crate::leaf::{compute_creators_hash, spec_creators_hash, CreatorInfo};
use crate::identity::bytes32_eq;

verus! {

/// Admin quota a fresh configuration starts with: 30%.
pub const DEFAULT_ADMIN_QUOTA_BPS: u64 = 3000;

/// The trusted creator identities of the land collection.
#[derive(Clone, Copy, Debug)]
pub struct Creators {
    pub royalties_receiver: Identity,
    pub mint_creator: Identity,
    pub verification_creator: Identity,
}

/// The configuration singleton.
#[derive(Clone, Copy, Debug)]
pub struct Data {
    /// Whether the singleton has been created.
    pub initialized: bool,
    /// The identity authorized to mutate this configuration and to relay
    /// transactions.
    pub centralized_account: Identity,
    /// Price per rental unit, in the mint's smallest unit.
    pub base_cost: u64,
    /// Fraction of every payment retained as platform fee, in basis points.
    pub admin_quota_bps: u64,
    /// Identity of the auction subsystem; accounts owned by it are auction
    /// records.
    pub auction_house_address: Identity,
    /// Account that collects the platform fee.
    pub fee_account: Identity,
    /// The only token mint payments are accepted in.
    pub mint_address: Identity,
    /// Trusted creator identities of the land collection.
    pub land_creators: Creators,
}

impl Data {
    /// The admin quota is a fraction of the whole: at most 10,000 basis
    /// points.
    pub open spec fn wf(self) -> bool {
        self.admin_quota_bps <= QUOTA_DENOMINATOR
    }

    /// The creator list the configuration vouches for: the royalties
    /// receiver with the full share, then the verified mint and
    /// verification creators.
    pub open spec fn spec_config_creators(self) -> Seq<CreatorInfo> {
        seq![
            CreatorInfo {
                address: self.land_creators.royalties_receiver,
                verified: false,
                share: 100u8,
            },
            CreatorInfo { address: self.land_creators.mint_creator, verified: true, share: 0u8 },
            CreatorInfo {
                address: self.land_creators.verification_creator,
                verified: true,
                share: 0u8,
            },
        ]
    }

    /// Checks a supplied royalties receiver against the configured one.
    pub fn check_royalties_receiver(&self, received_key: &Identity) -> (r: Result<
        (),
        CustomErrors,
    >)
        ensures
            self.land_creators.royalties_receiver@ == received_key@ ==> r == Ok::<
                (),
                CustomErrors,
            >(()),
            self.land_creators.royalties_receiver@ != received_key@ ==> r == Err::<
                (),
                CustomErrors,
            >(CustomErrors::InvalidReceivedCreator),
    {
        if self.land_creators.royalties_receiver.equals(received_key) {
            Ok(())
        } else {
            Err(CustomErrors::InvalidReceivedCreator)
        }
    }

    /// Checks a supplied mint creator against the configured one.
    pub fn check_mint_creator(&self, received_key: &Identity) -> (r: Result<(), CustomErrors>)
        ensures
            self.land_creators.mint_creator@ == received_key@ ==> r == Ok::<(), CustomErrors>(()),
            self.land_creators.mint_creator@ != received_key@ ==> r == Err::<(), CustomErrors>(
                CustomErrors::InvalidReceivedCreator,
            ),
    {
        if self.land_creators.mint_creator.equals(received_key) {
            Ok(())
        } else {
            Err(CustomErrors::InvalidReceivedCreator)
        }
    }

    /// Checks a supplied verification creator against the configured one.
    pub fn check_verification_creator(&self, received_key: &Identity) -> (r: Result<
        (),
        CustomErrors,
    >)
        ensures
            self.land_creators.verification_creator@ == received_key@ ==> r == Ok::<
                (),
                CustomErrors,
            >(()),
            self.land_creators.verification_creator@ != received_key@ ==> r == Err::<
                (),
                CustomErrors,
            >(CustomErrors::InvalidReceivedCreator),
    {
        if self.land_creators.verification_creator.equals(received_key) {
            Ok(())
        } else {
            Err(CustomErrors::InvalidReceivedCreator)
        }
    }

    /// Checks that a supplied creator hash matches the hash of the creator
    /// list this configuration vouches for.
    pub fn check_received_creator_hash(&self, received_creator_hash: &[u8; 32]) -> (r: Result<
        (),
        CustomErrors,
    >)
        ensures
            r is Ok <==> spec_creators_hash(self.spec_config_creators())
                == received_creator_hash@,
            r is Err ==> r == Err::<(), CustomErrors>(CustomErrors::InvalidReceivedCreatorHash),
    {
        let mut creators: Vec<CreatorInfo> = Vec::new();
        creators.push(
            CreatorInfo { address: self.land_creators.royalties_receiver, verified: false, share: 100 },
        );
        creators.push(
            CreatorInfo { address: self.land_creators.mint_creator, verified: true, share: 0 },
        );
        creators.push(
            CreatorInfo { address: self.land_creators.verification_creator, verified: true, share: 0 },
        );
        assert(creators@ =~= self.spec_config_creators());
        let generated = compute_creators_hash(&creators);
        if bytes32_eq(&generated, received_creator_hash) {
            Ok(())
        } else {
            Err(CustomErrors::InvalidReceivedCreatorHash)
        }
    }
}

/// Ten to the `exp`-th power.
pub open spec fn spec_pow10(exp: nat) -> nat
    decreases exp,
{
    if exp == 0 {
        1
    } else {
        10 * spec_pow10((exp - 1) as nat)
    }
}

/// Ten to a higher power is no smaller.
proof fn lemma_pow10_increases(a: nat, b: nat)
    requires
        a <= b,
    ensures
        spec_pow10(a) <= spec_pow10(b),
    decreases b,
{
    if a < b {
        lemma_pow10_increases(a, (b - 1) as nat);
    }
}

/// Computes ten to the `exp`-th power; every power up to ten to the
/// nineteenth fits the 64-bit range.
pub fn pow10(exp: u8) -> (r: u64)
    requires
        exp <= 19,
    ensures
        r == spec_pow10(exp as nat),
{
    let mut acc: u64 = 1;
    let mut i: u8 = 0;
    while i < exp
        invariant
            i <= exp,
            exp <= 19,
            acc == spec_pow10(i as nat),
        decreases exp - i,
    {
        proof {
            lemma_pow10_increases(i as nat, 18);
            assert(spec_pow10(18) == 1_000_000_000_000_000_000) by {
                reveal_with_fuel(spec_pow10, 20);
            }
        }
        acc = acc * 10;
        i = i + 1;
    }
    acc
}

/// Creates the configuration singleton: records the payer as centralized
/// operator, prices one rental unit at one whole token of the mint, starts
/// the admin quota at 30%, and stores the trusted addresses. Fails if the
/// singleton already exists, leaving it unchanged.
pub fn handle_initialize(
    data: &mut Data,
    payer: &Identity,
    fee_account: &Identity,
    auction_house_address: &Identity,
    royalties_receiver: &Identity,
    mint_creator: &Identity,
    verification_creator: &Identity,
    mint_address: &Identity,
    mint_decimals: u8,
) -> (r: Result<(), CustomErrors>)
    requires
        mint_decimals <= 19,
    ensures
        old(data).initialized ==> r == Err::<(), CustomErrors>(CustomErrors::AlreadyInitialized)
            && *final(data) == *old(data),
        !old(data).initialized ==> {
            &&& r == Ok::<(), CustomErrors>(())
            &&& final(data).initialized
            &&& final(data).centralized_account == *payer
            &&& final(data).base_cost == spec_pow10(mint_decimals as nat)
            &&& final(data).admin_quota_bps == DEFAULT_ADMIN_QUOTA_BPS
            &&& final(data).auction_house_address == *auction_house_address
            &&& final(data).fee_account == *fee_account
            &&& final(data).mint_address == *mint_address
            &&& final(data).land_creators == (Creators {
                royalties_receiver: *royalties_receiver,
                mint_creator: *mint_creator,
                verification_creator: *verification_creator,
            })
            &&& final(data).wf()
        },
{
    if data.initialized {
        return Err(CustomErrors::AlreadyInitialized);
    }
    data.centralized_account = *payer;
    data.initialized = true;
    data.base_cost = pow10(mint_decimals);
    data.admin_quota_bps = DEFAULT_ADMIN_QUOTA_BPS;
    data.auction_house_address = *auction_house_address;
    data.fee_account = *fee_account;
    data.mint_address = *mint_address;
    data.land_creators = Creators {
        royalties_receiver: *royalties_receiver,
        mint_creator: *mint_creator,
        verification_creator: *verification_creator,
    };
    Ok(())
}

/// A configuration update: every present field overwrites the
/// corresponding configuration field, absent fields leave it untouched.
#[derive(Clone, Copy, Debug)]
pub struct UpdateConfigData {
    /// New price per rental unit, in the mint's smallest unit.
    pub base_cost: Option<u64>,
    /// New admin quota, in basis points of the whole.
    pub admin_quota_bps: Option<u64>,
    pub auction_house_address: Option<Identity>,
    pub fee_account: Option<Identity>,
    pub mint_address: Option<Identity>,
    pub royalties_receiver: Option<Identity>,
    pub mint_creator: Option<Identity>,
    pub verification_creator: Option<Identity>,
}

/// Applies a configuration update. Only the centralized operator may
/// mutate the configuration; any other caller is rejected and the
/// configuration is left unchanged. Each present field overwrites its
/// configuration field; absent fields are untouched.
pub fn handle_update_config(
    data: &mut Data,
    caller: &Identity,
    payload: &UpdateConfigData,
) -> (r: Result<(), CustomErrors>)
    requires
        old(data).wf(),
        payload.admin_quota_bps matches Some(q) ==> q <= QUOTA_DENOMINATOR,
    ensures
        final(data).wf(),
        old(data).centralized_account@ != caller@ ==> r == Err::<(), CustomErrors>(
            CustomErrors::InvalidAuthority,
        ) && *final(data) == *old(data),
        old(data).centralized_account@ == caller@ ==> {
            &&& r == Ok::<(), CustomErrors>(())
            &&& final(data).base_cost == (match payload.base_cost {
                Some(v) => v,
                None => old(data).base_cost,
            })
            &&& final(data).admin_quota_bps == (match payload.admin_quota_bps {
                Some(v) => v,
                None => old(data).admin_quota_bps,
            })
            &&& final(data).auction_house_address == (match payload.auction_house_address {
                Some(v) => v,
                None => old(data).auction_house_address,
            })
            &&& final(data).fee_account == (match payload.fee_account {
                Some(v) => v,
                None => old(data).fee_account,
            })
            &&& final(data).mint_address == (match payload.mint_address {
                Some(v) => v,
                None => old(data).mint_address,
            })
            &&& final(data).land_creators.royalties_receiver == (
            match payload.royalties_receiver {
                Some(v) => v,
                None => old(data).land_creators.royalties_receiver,
            })
            &&& final(data).land_creators.mint_creator == (match payload.mint_creator {
                Some(v) => v,
                None => old(data).land_creators.mint_creator,
            })
            &&& final(data).land_creators.verification_creator == (
            match payload.verification_creator {
                Some(v) => v,
                None => old(data).land_creators.verification_creator,
            })
            &&& final(data).initialized == old(data).initialized
            &&& final(data).centralized_account == old(data).centralized_account
        },
{
    if !data.centralized_account.equals(caller) {
        return Err(CustomErrors::InvalidAuthority);
    }
    if let Some(v) = payload.base_cost {
        data.base_cost = v;
    }
    if let Some(v) = payload.admin_quota_bps {
        data.admin_quota_bps = v;
    }
    if let Some(v) = payload.auction_house_address {
        data.auction_house_address = v;
    }
    if let Some(v) = payload.fee_account {
        data.fee_account = v;
    }
    if let Some(v) = payload.mint_address {
        data.mint_address = v;
    }
    if let Some(v) = payload.royalties_receiver {
        data.land_creators.royalties_receiver = v;
    }
    if let Some(v) = payload.mint_creator {
        data.land_creators.mint_creator = v;
    }
    if let Some(v) = payload.verification_creator {
        data.land_creators.verification_creator = v;
    }
    Ok(())
}

} // verus!
