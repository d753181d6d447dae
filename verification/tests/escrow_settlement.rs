use solana_sky_trade::auction::Auction;
use solana_sky_trade::config::{Creators, Data};
use solana_sky_trade::errors::CustomErrors;
use solana_sky_trade::escrow::EscrowStore;
use solana_sky_trade::identity::Identity;
use solana_sky_trade::leaf::LeafData;
use solana_sky_trade::mint_rental_token::handle_mint_rental_token;
use solana_sky_trade::transfer_on_expiry::handle_transfer_on_expiry;

fn id(n: u8) -> Identity {
    Identity { bytes: [n; 32] }
}

fn config() -> Data {
    Data {
        initialized: true,
        centralized_account: id(1),
        base_cost: 1_000_000,
        admin_quota_bps: 3000,
        auction_house_address: id(9),
        fee_account: id(7),
        mint_address: id(8),
        land_creators: Creators {
            royalties_receiver: id(11),
            mint_creator: id(12),
            verification_creator: id(13),
        },
    }
}

const TREE: Identity = Identity { bytes: [20u8; 32] };
const NONCE: u64 = 5;

/// The parcel identity the registry derives for leaf `NONCE` of `TREE`.
fn parcel() -> Identity {
    let tree_key = solana_program::pubkey::Pubkey::new_from_array(TREE.bytes);
    Identity { bytes: mpl_bubblegum::utils::get_asset_id(&tree_key, NONCE).to_bytes() }
}

fn claim() -> LeafData {
    LeafData { index: 0, nonce: NONCE, root: [1u8; 32], hash: [2u8; 32], creator_hash: [3u8; 32] }
}

const CREATION: &str = "2024-03-01T10:30:00+00:00";

fn creation_ts() -> i64 {
    chrono::DateTime::parse_from_rfc3339(CREATION).unwrap().timestamp()
}

fn minted_store() -> EscrowStore {
    let mut store = EscrowStore::new();
    let r = handle_mint_rental_token(&mut store, &config(), &parcel(), &CREATION.to_string(), 3, 255);
    assert_eq!(r, Ok(3_000_000));
    store
}

fn auction_record(seller: Identity) -> Auction {
    Auction {
        bump: [254],
        nonce_bytes: [0; 8],
        asset_id: parcel(),
        merkle_tree: TREE,
        initial_price: 1,
        end_time: 0,
        seller,
        rent_payer: id(50),
        payment_currency: id(8),
        bidder: None,
        current_price: 1,
        filled_amount: 0,
        top_up_bid_deadline: 0,
        asset_verification_deadline: 0,
        is_verified: true,
    }
}

#[test]
fn mint_prices_and_records_the_window() {
    let store = minted_store();
    assert_eq!(store.len(), 1);
    let creation = CREATION.to_string();
    let rec = store.get(&parcel(), &creation).unwrap();
    assert_eq!(rec.expected_cost, 3_000_000);
    assert_eq!(rec.fee_quota, 900_000);
    assert_eq!(rec.creation_time, CREATION);
    assert_eq!(rec.end_time, "2024-03-01T11:00:00+00:00");
    assert_eq!(rec.escrow_bump, [255]);
    assert_eq!(rec.land_asset_id.bytes, parcel().bytes);

    let seeds = rec.escrow_seeds();
    assert_eq!(seeds.len(), 4);
    assert_eq!(seeds[0], b"escrow".to_vec());
    assert_eq!(seeds[1], parcel().bytes.to_vec());
    assert_eq!(seeds[2], CREATION.as_bytes().to_vec());
    assert_eq!(seeds[3], vec![255]);
}

#[test]
fn mint_rejects_misaligned_minutes() {
    let mut store = EscrowStore::new();
    for bad in ["2024-03-01T10:15:00+00:00", "2024-03-01T10:29:59+00:00", "2024-03-01T10:31:00Z"] {
        let r = handle_mint_rental_token(&mut store, &config(), &parcel(), &bad.to_string(), 1, 0);
        assert_eq!(r, Err(CustomErrors::InvalidTime));
        assert_eq!(store.len(), 0);
    }
    // Half-hour offsets shift the minute-of-hour of the written time.
    let shifted = "2024-03-01T10:00:00+05:30".to_string();
    let r = handle_mint_rental_token(&mut store, &config(), &parcel(), &shifted, 1, 0);
    assert_eq!(r, Ok(1_000_000));
}

#[test]
fn mint_rejects_unreadable_times() {
    let mut store = EscrowStore::new();
    for bad in ["definitely not a time", "2024-03-01 10:30:00", "2024-13-01T10:30:00+00:00", ""] {
        let r = handle_mint_rental_token(&mut store, &config(), &parcel(), &bad.to_string(), 1, 0);
        assert_eq!(r, Err(CustomErrors::InvalidTimeString));
        assert_eq!(store.len(), 0);
    }
}

#[test]
fn mint_rejects_duplicate_windows() {
    let mut store = minted_store();
    let r = handle_mint_rental_token(&mut store, &config(), &parcel(), &CREATION.to_string(), 1, 0);
    assert_eq!(r, Err(CustomErrors::InvalidRentalAddressPassed));
    assert_eq!(store.len(), 1);

    // A different window of the same parcel is a fresh key.
    let other = "2024-03-01T11:00:00+00:00".to_string();
    let r2 = handle_mint_rental_token(&mut store, &config(), &parcel(), &other, 1, 0);
    assert_eq!(r2, Ok(1_000_000));
    assert_eq!(store.len(), 2);
}

#[test]
fn mint_of_zero_quantity_costs_nothing() {
    let mut store = EscrowStore::new();
    let r = handle_mint_rental_token(&mut store, &config(), &parcel(), &CREATION.to_string(), 0, 0);
    assert_eq!(r, Ok(0));
    let creation = CREATION.to_string();
    let rec = store.get(&parcel(), &creation).unwrap();
    assert_eq!(rec.expected_cost, 0);
    assert_eq!(rec.fee_quota, 0);
}

#[test]
fn mint_rejects_overflowing_cost() {
    let mut store = EscrowStore::new();
    let mut pricey = config();
    pricey.base_cost = u64::MAX;
    let r = handle_mint_rental_token(&mut store, &pricey, &parcel(), &CREATION.to_string(), 2, 0);
    assert_eq!(r, Err(CustomErrors::ArithmeticOverflow));
    assert_eq!(store.len(), 0);
}

#[test]
fn settlement_splits_funds_and_closes_the_escrow() {
    let mut store = minted_store();
    let creation = CREATION.to_string();
    let owner = id(30);
    let now = creation_ts() + 1800;
    let r = handle_transfer_on_expiry(
        &mut store,
        &config(),
        &id(7),
        &id(8),
        now,
        &parcel(),
        &creation,
        &TREE,
        &claim(),
        &owner,
        &Identity { bytes: [0u8; 32] },
        &None,
        &owner,
        true,
    );
    let out = r.unwrap();
    assert_eq!(out.fee_amount, 900_000);
    assert_eq!(out.receiver_amount, 2_100_000);
    assert_eq!(out.fee_amount + out.receiver_amount, 3_000_000);
    assert_eq!(out.receiver.bytes, owner.bytes);
    assert_eq!(store.len(), 0);
    assert!(store.get(&parcel(), &creation).is_none());

    // The record is gone: a second settlement cannot reach it.
    let again = handle_transfer_on_expiry(
        &mut store,
        &config(),
        &id(7),
        &id(8),
        now,
        &parcel(),
        &creation,
        &TREE,
        &claim(),
        &owner,
        &Identity { bytes: [0u8; 32] },
        &None,
        &owner,
        true,
    );
    assert!(matches!(again, Err(CustomErrors::InvalidRentalAddressPassed)));
    assert_eq!(store.len(), 0);
}

#[test]
fn settlement_waits_for_expiry() {
    let mut store = minted_store();
    let creation = CREATION.to_string();
    let owner = id(30);
    let end = creation_ts() + 1800;
    for early in [creation_ts(), end - 1] {
        let r = handle_transfer_on_expiry(
            &mut store,
            &config(),
            &id(7),
            &id(8),
            early,
            &parcel(),
            &creation,
            &TREE,
            &claim(),
            &owner,
            &Identity { bytes: [0u8; 32] },
            &None,
            &owner,
            true,
        );
        assert!(matches!(r, Err(CustomErrors::InvalidTransferTime)));
        assert_eq!(store.len(), 1);
    }
    // At the end instant itself the window has expired.
    let r = handle_transfer_on_expiry(
        &mut store,
        &config(),
        &id(7),
        &id(8),
        end,
        &parcel(),
        &creation,
        &TREE,
        &claim(),
        &owner,
        &Identity { bytes: [0u8; 32] },
        &None,
        &owner,
        true,
    );
    assert!(r.is_ok());
}

#[test]
fn settlement_rejects_unverified_or_mismatched_leaves() {
    let mut store = minted_store();
    let creation = CREATION.to_string();
    let owner = id(30);
    let now = creation_ts() + 1800;

    // The external verifier refused the proof: a forged leaf (any altered
    // byte of its data hash, creator hash or root) ends up here.
    let r = handle_transfer_on_expiry(
        &mut store,
        &config(),
        &id(7),
        &id(8),
        now,
        &parcel(),
        &creation,
        &TREE,
        &claim(),
        &owner,
        &Identity { bytes: [0u8; 32] },
        &None,
        &owner,
        false,
    );
    assert!(matches!(r, Err(CustomErrors::InvalidLandNFTData)));

    // A claim whose nonce derives a different asset does not name the
    // escrow's parcel.
    let mut wrong_claim = claim();
    wrong_claim.nonce = NONCE + 1;
    let r2 = handle_transfer_on_expiry(
        &mut store,
        &config(),
        &id(7),
        &id(8),
        now,
        &parcel(),
        &creation,
        &TREE,
        &wrong_claim,
        &owner,
        &Identity { bytes: [0u8; 32] },
        &None,
        &owner,
        true,
    );
    assert!(matches!(r2, Err(CustomErrors::InvalidLandNFTData)));
    assert_eq!(store.len(), 1);
}

#[test]
fn settlement_checks_trusted_fee_account_and_mint() {
    let mut store = minted_store();
    let creation = CREATION.to_string();
    let owner = id(30);
    let now = creation_ts() + 1800;

    let wrong_fee = handle_transfer_on_expiry(
        &mut store,
        &config(),
        &id(6),
        &id(8),
        now,
        &parcel(),
        &creation,
        &TREE,
        &claim(),
        &owner,
        &Identity { bytes: [0u8; 32] },
        &None,
        &owner,
        true,
    );
    assert!(matches!(wrong_fee, Err(CustomErrors::InvalidReceiver)));

    let wrong_mint = handle_transfer_on_expiry(
        &mut store,
        &config(),
        &id(7),
        &id(5),
        now,
        &parcel(),
        &creation,
        &TREE,
        &claim(),
        &owner,
        &Identity { bytes: [0u8; 32] },
        &None,
        &owner,
        true,
    );
    assert!(matches!(wrong_mint, Err(CustomErrors::InvalidMint)));
    assert_eq!(store.len(), 1);
}

#[test]
fn plain_wallet_owner_is_the_only_valid_receiver() {
    let owner = id(30);
    let creation = CREATION.to_string();
    let now = creation_ts() + 1800;

    let mut store = minted_store();
    let to_other = handle_transfer_on_expiry(
        &mut store,
        &config(),
        &id(7),
        &id(8),
        now,
        &parcel(),
        &creation,
        &TREE,
        &claim(),
        &owner,
        &Identity { bytes: [0u8; 32] },
        &None,
        &id(31),
        true,
    );
    assert!(matches!(to_other, Err(CustomErrors::InvalidReceiver)));
    assert_eq!(store.len(), 1);

    let to_owner = handle_transfer_on_expiry(
        &mut store,
        &config(),
        &id(7),
        &id(8),
        now,
        &parcel(),
        &creation,
        &TREE,
        &claim(),
        &owner,
        &Identity { bytes: [0u8; 32] },
        &None,
        &owner,
        true,
    );
    let out = to_owner.unwrap();
    assert_eq!(out.receiver.bytes, owner.bytes);
}

#[test]
fn auction_held_parcel_pays_the_seller() {
    let owner = id(60);
    let seller = id(61);
    let creation = CREATION.to_string();
    let now = creation_ts() + 1800;

    // Paying anyone but the seller — the owner account itself included —
    // is refused.
    let mut store = minted_store();
    let to_owner = handle_transfer_on_expiry(
        &mut store,
        &config(),
        &id(7),
        &id(8),
        now,
        &parcel(),
        &creation,
        &TREE,
        &claim(),
        &owner,
        &id(9),
        &Some(auction_record(seller)),
        &owner,
        true,
    );
    assert!(matches!(to_owner, Err(CustomErrors::InvalidReceiver)));

    let to_seller = handle_transfer_on_expiry(
        &mut store,
        &config(),
        &id(7),
        &id(8),
        now,
        &parcel(),
        &creation,
        &TREE,
        &claim(),
        &owner,
        &id(9),
        &Some(auction_record(seller)),
        &seller,
        true,
    );
    let out = to_seller.unwrap();
    assert_eq!(out.receiver.bytes, seller.bytes);
    assert_eq!(out.fee_amount, 900_000);
    assert_eq!(out.receiver_amount, 2_100_000);
}

#[test]
fn unknown_custodianship_is_never_trusted() {
    let owner = id(60);
    let creation = CREATION.to_string();
    let now = creation_ts() + 1800;

    // Owned by some unrelated program: nobody is entitled.
    let mut store = minted_store();
    let r = handle_transfer_on_expiry(
        &mut store,
        &config(),
        &id(7),
        &id(8),
        now,
        &parcel(),
        &creation,
        &TREE,
        &claim(),
        &owner,
        &id(42),
        &None,
        &owner,
        true,
    );
    assert!(matches!(r, Err(CustomErrors::InvalidReceiver)));

    // Owned by the auction house but with no readable auction record.
    let r2 = handle_transfer_on_expiry(
        &mut store,
        &config(),
        &id(7),
        &id(8),
        now,
        &parcel(),
        &creation,
        &TREE,
        &claim(),
        &owner,
        &id(9),
        &None,
        &owner,
        true,
    );
    assert!(matches!(r2, Err(CustomErrors::InvalidReceiver)));
    assert_eq!(store.len(), 1);
}
