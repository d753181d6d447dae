//! Settlement engine: the expiry-time half of a rental.
//!
//! Once a rental window has expired, anyone may drive the settlement: the
//! escrow's held payment is split into the platform fee and the receiver
//! amount, and the escrow record is destroyed. Before paying out, the
//! engine checks the fee account and the mint against the configuration,
//! the clock against the window's end, the claimed leaf against the
//! escrow's parcel, the external proof verifier's verdict, and the
//! payment receiver against the identity actually entitled to the payout:
//! the parcel's direct owner, or — where the parcel is held by the
//! auction subsystem — the auction's seller. Unknown custodianship is
//! never trusted.
//!
//! Every check happens before any state changes: a settlement either
//! fails with the store untouched, or removes the record and reports the
//! two amounts the caller must transfer out of the record's custody.

use vstd::prelude::*;

use crate::auction::Auction;
use crate::config::Data;
use crate::constants::spec_system_program_id;
use crate::constants::system_program_id;
use crate::errors::CustomErrors;
use crate::escrow::{spec_get, EscrowStore, RentEscrow};
use crate::identity::Identity;
use crate::leaf::{compute_asset_id, spec_asset_id, LeafData};
use crate::timestamps::{parse_rfc3339, spec_parse_rfc3339};

verus! {

/// Who holds the parcel, resolved once per settlement.
#[derive(Clone, Copy, Debug)]
pub enum HolderClass {
    /// The parcel's owner account is a plain wallet.
    DirectOwner,
    /// The owner account is an auction record of the auction subsystem.
    AuctionHeld { seller: Identity },
    /// The owner account belongs to some other program; never trusted.
    Unsupported,
}

/// Classifies the parcel's holder from the program that owns the owner
/// account: the system program means a plain wallet; the configured
/// auction house means an auction record, whose deserialized form must
/// have been supplied; anything else is unsupported.
pub open spec fn spec_classify_holder(
    owner_program: Seq<u8>,
    auction_house: Seq<u8>,
    auction: Option<Auction>,
) -> HolderClass {
    if owner_program == spec_system_program_id() {
        HolderClass::DirectOwner
    } else if owner_program == auction_house {
        match auction {
            Some(a) => HolderClass::AuctionHeld { seller: a.seller },
            None => HolderClass::Unsupported,
        }
    } else {
        HolderClass::Unsupported
    }
}

/// Classifies the parcel's holder; `auction` is the deserialized content
/// of the owner account where it is an auction record.
pub fn classify_holder(
    owner_program: &Identity,
    auction_house: &Identity,
    auction: &Option<Auction>,
) -> (r: HolderClass)
    ensures
        r == spec_classify_holder(owner_program@, auction_house@, *auction),
{
    let system = system_program_id();
    if owner_program.equals(&system) {
        HolderClass::DirectOwner
    } else if owner_program.equals(auction_house) {
        match auction {
            Some(a) => HolderClass::AuctionHeld { seller: a.seller },
            None => HolderClass::Unsupported,
        }
    } else {
        HolderClass::Unsupported
    }
}

/// The identity entitled to the payout: the direct owner where the parcel
/// sits in a plain wallet, the auction's seller where it is auction-held,
/// nobody otherwise.
pub open spec fn spec_entitled_receiver(owner: Identity, holder: HolderClass) -> Option<
    Identity,
> {
    match holder {
        HolderClass::DirectOwner => Some(owner),
        HolderClass::AuctionHeld { seller } => Some(seller),
        HolderClass::Unsupported => None,
    }
}

/// Resolves the legitimate payout receiver and checks the caller-supplied
/// one against it: the payment receiver must be the entitled identity,
/// and an unsupported holder entitles nobody.
pub fn resolve_receiver(
    owner: &Identity,
    holder: &HolderClass,
    payment_receiver: &Identity,
) -> (r: Result<Identity, CustomErrors>)
    ensures
        match spec_entitled_receiver(*owner, *holder) {
            Some(e) => (if payment_receiver@ == e@ {
                r == Ok::<Identity, CustomErrors>(e)
            } else {
                r == Err::<Identity, CustomErrors>(CustomErrors::InvalidReceiver)
            }),
            None => r == Err::<Identity, CustomErrors>(CustomErrors::InvalidReceiver),
        },
{
    match holder {
        HolderClass::DirectOwner => {
            if owner.equals(payment_receiver) {
                Ok(*owner)
            } else {
                Err(CustomErrors::InvalidReceiver)
            }
        },
        HolderClass::AuctionHeld { seller } => {
            if seller.equals(payment_receiver) {
                Ok(*seller)
            } else {
                Err(CustomErrors::InvalidReceiver)
            }
        },
        HolderClass::Unsupported => Err(CustomErrors::InvalidReceiver),
    }
}

/// What a successful settlement instructs: pay `fee_amount` to the
/// configured fee account and `receiver_amount` to `receiver`, both out of
/// the escrow record's custody.
#[derive(Clone, Copy, Debug)]
pub struct SettlementOutcome {
    pub receiver: Identity,
    pub fee_amount: u64,
    pub receiver_amount: u64,
}

/// The whole settlement decision. `proof_ok` is the external proof
/// verifier's verdict on the reconstructed leaf hash against the claim's
/// root; `auction` is the deserialized owner account where the parcel is
/// auction-held. The checks run in order: trusted fee account, trusted
/// mint, escrow existence, readable end time, expiry reached, claimed
/// leaf naming the escrow's parcel, verified proof, entitled receiver.
pub open spec fn spec_settlement(
    records: Seq<RentEscrow>,
    config: Data,
    fee_account: Seq<u8>,
    mint: Seq<u8>,
    now: i64,
    parcel_id: Seq<u8>,
    creation_time: Seq<char>,
    merkle_tree: Seq<u8>,
    claim: LeafData,
    owner: Identity,
    owner_program: Seq<u8>,
    auction: Option<Auction>,
    payment_receiver: Identity,
    proof_ok: bool,
) -> Result<SettlementOutcome, CustomErrors> {
    if fee_account != config.fee_account@ {
        Err(CustomErrors::InvalidReceiver)
    } else if mint != config.mint_address@ {
        Err(CustomErrors::InvalidMint)
    } else {
        match spec_get(records, parcel_id, creation_time) {
            None => Err(CustomErrors::InvalidRentalAddressPassed),
            Some(rec) => match spec_parse_rfc3339(rec.end_time@) {
                None => Err(CustomErrors::InvalidTimeString),
                Some(end) => if end.timestamp > now {
                    Err(CustomErrors::InvalidTransferTime)
                } else if spec_asset_id(merkle_tree, claim.nonce) != parcel_id {
                    Err(CustomErrors::InvalidLandNFTData)
                } else if !proof_ok {
                    Err(CustomErrors::InvalidLandNFTData)
                } else {
                    match spec_entitled_receiver(
                        owner,
                        spec_classify_holder(owner_program, config.auction_house_address@, auction),
                    ) {
                        None => Err(CustomErrors::InvalidReceiver),
                        Some(e) => if payment_receiver@ != e@ {
                            Err(CustomErrors::InvalidReceiver)
                        } else {
                            Ok(SettlementOutcome {
                                receiver: e,
                                fee_amount: rec.fee_quota,
                                receiver_amount: (rec.expected_cost - rec.fee_quota) as u64,
                            })
                        },
                    }
                },
            },
        }
    }
}

/// Settles one expired rental.
///
/// On success the returned outcome names the payout: the record's fee
/// quota to the fee account and the rest of the held payment to the
/// resolved receiver — together exactly the held amount — and the record
/// is removed, so no second settlement can reach it. On failure the store
/// is unchanged and the error says which check refused.
pub fn handle_transfer_on_expiry(
    store: &mut EscrowStore,
    config: &Data,
    fee_account: &Identity,
    mint: &Identity,
    now: i64,
    parcel_id: &Identity,
    creation_time: &String,
    merkle_tree: &Identity,
    claim: &LeafData,
    owner: &Identity,
    owner_program: &Identity,
    auction: &Option<Auction>,
    payment_receiver: &Identity,
    proof_ok: bool,
) -> (r: Result<SettlementOutcome, CustomErrors>)
    requires
        old(store).wf(),
    ensures
        final(store).wf(),
        ({
            let decision = spec_settlement(
                old(store)@,
                *config,
                fee_account@,
                mint@,
                now,
                parcel_id@,
                creation_time@,
                merkle_tree@,
                *claim,
                *owner,
                owner_program@,
                *auction,
                *payment_receiver,
                proof_ok,
            );
            match decision {
                Err(e) => r == Err::<SettlementOutcome, CustomErrors>(e) && final(store)@ == old(
                    store,
                )@,
                Ok(out) => {
                    &&& r == Ok::<SettlementOutcome, CustomErrors>(out)
                    &&& out.fee_amount + out.receiver_amount == spec_get(
                        old(store)@,
                        parcel_id@,
                        creation_time@,
                    )->Some_0.expected_cost
                    &&& final(store)@.len() == old(store)@.len() - 1
                    &&& spec_get(final(store)@, parcel_id@, creation_time@) is None
                    &&& forall|p: Seq<u8>, t: Seq<char>|
                        #![trigger spec_get(final(store)@, p, t)]
                        !(p == parcel_id@ && t == creation_time@) ==> spec_get(
                            final(store)@,
                            p,
                            t,
                        ) == spec_get(old(store)@, p, t)
                },
            }
        }),
{
    if !fee_account.equals(&config.fee_account) {
        return Err(CustomErrors::InvalidReceiver);
    }
    if !mint.equals(&config.mint_address) {
        return Err(CustomErrors::InvalidMint);
    }
    match store.get(parcel_id, creation_time) {
        None => {
            return Err(CustomErrors::InvalidRentalAddressPassed);
        },
        Some(rec) => {
            let end = match parse_rfc3339(rec.end_time.as_str()) {
                Some(p) => p,
                None => {
                    return Err(CustomErrors::InvalidTimeString);
                },
            };
            if end.timestamp > now {
                return Err(CustomErrors::InvalidTransferTime);
            }
        },
    }
    let asset_id = compute_asset_id(merkle_tree, claim.nonce);
    if !asset_id.equals(parcel_id) {
        return Err(CustomErrors::InvalidLandNFTData);
    }
    if !proof_ok {
        return Err(CustomErrors::InvalidLandNFTData);
    }
    let holder = classify_holder(owner_program, &config.auction_house_address, auction);
    let receiver = match resolve_receiver(owner, &holder, payment_receiver) {
        Ok(receiver) => receiver,
        Err(e) => {
            return Err(e);
        },
    };
    proof {
        crate::escrow::lemma_spec_get_element_wf(old(store)@, parcel_id@, creation_time@);
    }
    let rec = store.remove(parcel_id, creation_time);
    Ok(SettlementOutcome {
        receiver,
        fee_amount: rec.fee_quota,
        receiver_amount: rec.expected_cost - rec.fee_quota,
    })
}

/// Law: a settlement attempted before the window's end always fails with
/// `InvalidTransferTime`, whatever the proof, the holder and the receiver.
pub proof fn lemma_settlement_before_expiry_rejected(
    records: Seq<RentEscrow>,
    config: Data,
    now: i64,
    parcel_id: Seq<u8>,
    creation_time: Seq<char>,
    merkle_tree: Seq<u8>,
    claim: LeafData,
    owner: Identity,
    owner_program: Seq<u8>,
    auction: Option<Auction>,
    payment_receiver: Identity,
    proof_ok: bool,
)
    requires
        ({
            &&& spec_get(records, parcel_id, creation_time) matches Some(rec)
            &&& spec_parse_rfc3339(rec.end_time@) matches Some(end)
            &&& now < end.timestamp
        }),
    ensures
        spec_settlement(
            records,
            config,
            config.fee_account@,
            config.mint_address@,
            now,
            parcel_id,
            creation_time,
            merkle_tree,
            claim,
            owner,
            owner_program,
            auction,
            payment_receiver,
            proof_ok,
        ) == Err::<SettlementOutcome, CustomErrors>(CustomErrors::InvalidTransferTime),
{
}

/// Law: once the window's end is reached, a settlement with a verified
/// proof for the escrow's own parcel and the entitled receiver succeeds,
/// and pays out exactly the held amount.
pub proof fn lemma_settlement_at_expiry_succeeds(
    records: Seq<RentEscrow>,
    config: Data,
    now: i64,
    parcel_id: Seq<u8>,
    creation_time: Seq<char>,
    merkle_tree: Seq<u8>,
    claim: LeafData,
    owner: Identity,
    owner_program: Seq<u8>,
    auction: Option<Auction>,
    payment_receiver: Identity,
)
    requires
        ({
            &&& spec_get(records, parcel_id, creation_time) matches Some(rec)
            &&& rec.wf()
            &&& spec_parse_rfc3339(rec.end_time@) matches Some(end)
            &&& now >= end.timestamp
        }),
        spec_asset_id(merkle_tree, claim.nonce) == parcel_id,
        ({
            &&& spec_entitled_receiver(
                owner,
                spec_classify_holder(owner_program, config.auction_house_address@, auction),
            ) matches Some(e)
            &&& payment_receiver@ == e@
        }),
    ensures
        spec_settlement(
            records,
            config,
            config.fee_account@,
            config.mint_address@,
            now,
            parcel_id,
            creation_time,
            merkle_tree,
            claim,
            owner,
            owner_program,
            auction,
            payment_receiver,
            true,
        ) matches Ok(out) && out.fee_amount + out.receiver_amount == spec_get(
            records,
            parcel_id,
            creation_time,
        )->Some_0.expected_cost,
{
}

/// Law: a settlement whose proof the external verifier refuses — as it
/// refuses every forged leaf, one whose data hash, creator hash or root
/// differs from the registry's — always fails with `InvalidLandNFTData`,
/// as does a claim that names a different parcel than the escrow.
pub proof fn lemma_unverified_leaf_rejected(
    records: Seq<RentEscrow>,
    config: Data,
    now: i64,
    parcel_id: Seq<u8>,
    creation_time: Seq<char>,
    merkle_tree: Seq<u8>,
    claim: LeafData,
    owner: Identity,
    owner_program: Seq<u8>,
    auction: Option<Auction>,
    payment_receiver: Identity,
    proof_ok: bool,
)
    requires
        ({
            &&& spec_get(records, parcel_id, creation_time) matches Some(rec)
            &&& spec_parse_rfc3339(rec.end_time@) matches Some(end)
            &&& now >= end.timestamp
        }),
        !proof_ok || spec_asset_id(merkle_tree, claim.nonce) != parcel_id,
    ensures
        spec_settlement(
            records,
            config,
            config.fee_account@,
            config.mint_address@,
            now,
            parcel_id,
            creation_time,
            merkle_tree,
            claim,
            owner,
            owner_program,
            auction,
            payment_receiver,
            proof_ok,
        ) == Err::<SettlementOutcome, CustomErrors>(CustomErrors::InvalidLandNFTData),
{
}

/// Law: after a successful settlement removed the escrow record, a second
/// settlement under the same key fails, whatever its other arguments: the
/// record is structurally unreachable and no double payout exists.
pub proof fn lemma_settled_escrow_unreachable(
    records_after: Seq<RentEscrow>,
    config: Data,
    now: i64,
    parcel_id: Seq<u8>,
    creation_time: Seq<char>,
    merkle_tree: Seq<u8>,
    claim: LeafData,
    owner: Identity,
    owner_program: Seq<u8>,
    auction: Option<Auction>,
    payment_receiver: Identity,
    proof_ok: bool,
)
    requires
        spec_get(records_after, parcel_id, creation_time) is None,
    ensures
        spec_settlement(
            records_after,
            config,
            config.fee_account@,
            config.mint_address@,
            now,
            parcel_id,
            creation_time,
            merkle_tree,
            claim,
            owner,
            owner_program,
            auction,
            payment_receiver,
            proof_ok,
        ) == Err::<SettlementOutcome, CustomErrors>(CustomErrors::InvalidRentalAddressPassed),
{
}

} // verus!
