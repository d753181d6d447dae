//! Opening an escrow: the mint-time half of a rental.
//!
//! A caller who rents a parcel names the parcel, the window's creation
//! time and the rented quantity. The core validates the window (the time
//! must parse and start on the hour or half hour), prices the rental,
//! and creates the escrow record that will hold the payment until expiry.
//! The caller then moves the returned amount from the payer into the
//! record's custody; the record and the held funds exist together or not
//! at all, a failed transfer aborting the whole transaction.

use vstd::prelude::*;

use crate::config::Data;
use crate::errors::CustomErrors;
use crate::escrow::{spec_get, EscrowStore, RentEscrow};
use crate::fees::{compute_cost, compute_fee, spec_expected_cost, spec_fee_quota};
use crate::identity::Identity;
use crate::timestamps::{
    add_thirty_minutes, minute_aligned, parse_rfc3339, spec_minute_aligned, spec_parse_rfc3339,
    spec_plus_thirty_minutes,
};

verus! {

/// Why a mint is rejected, or `None` where it goes through: the key must
/// be fresh, the creation time must parse, start on the hour or half hour
/// and lie where a thirty-minute later rendering exists, and the total
/// cost must fit the 64-bit range.
pub open spec fn spec_mint_error(
    records: Seq<RentEscrow>,
    config: Data,
    parcel_id: Seq<u8>,
    creation_time: Seq<char>,
    quantity: u64,
) -> Option<CustomErrors> {
    if spec_get(records, parcel_id, creation_time) is Some {
        Some(CustomErrors::InvalidRentalAddressPassed)
    } else if spec_parse_rfc3339(creation_time) is None {
        Some(CustomErrors::InvalidTimeString)
    } else if !spec_minute_aligned(spec_parse_rfc3339(creation_time)->Some_0.minute) {
        Some(CustomErrors::InvalidTime)
    } else if spec_plus_thirty_minutes(creation_time) is None {
        Some(CustomErrors::InvalidTime)
    } else if spec_expected_cost(config.base_cost, quantity) > u64::MAX {
        Some(CustomErrors::ArithmeticOverflow)
    } else {
        None
    }
}

/// Law: a creation time whose minute-of-hour is neither 0 nor 30 is
/// always rejected as `InvalidTime`.
pub proof fn lemma_misaligned_minute_rejected(
    records: Seq<RentEscrow>,
    config: Data,
    parcel_id: Seq<u8>,
    creation_time: Seq<char>,
    quantity: u64,
)
    requires
        spec_get(records, parcel_id, creation_time) is None,
        spec_parse_rfc3339(creation_time) matches Some(p) && !spec_minute_aligned(p.minute),
    ensures
        spec_mint_error(records, config, parcel_id, creation_time, quantity) == Some(
            CustomErrors::InvalidTime,
        ),
{
}

/// Opens the escrow of one rental window.
///
/// On success the store gains exactly one record, keyed by the parcel and
/// the creation time, priced at `base_cost * quantity` with the platform
/// fee split off per the admin quota, and timed to end thirty minutes
/// after creation; the returned amount is what the caller must move into
/// the record's custody. On failure the store is unchanged and the error
/// says what was wrong.
pub fn handle_mint_rental_token(
    store: &mut EscrowStore,
    config: &Data,
    parcel_id: &Identity,
    creation_time: &String,
    quantity: u64,
    bump: u8,
) -> (r: Result<u64, CustomErrors>)
    requires
        old(store).wf(),
        config.wf(),
    ensures
        final(store).wf(),
        match spec_mint_error(old(store)@, *config, parcel_id@, creation_time@, quantity) {
            Some(e) => r == Err::<u64, CustomErrors>(e) && final(store)@ == old(store)@,
            None => {
                let cost = spec_expected_cost(config.base_cost, quantity) as u64;
                let rec = final(store)@.last();
                &&& r == Ok::<u64, CustomErrors>(cost)
                &&& final(store)@ == old(store)@.push(rec)
                &&& rec.land_asset_id@ == parcel_id@
                &&& rec.creation_time@ == creation_time@
                &&& rec.expected_cost == cost
                &&& rec.fee_quota == spec_fee_quota(cost, config.admin_quota_bps)
                &&& rec.fee_quota <= rec.expected_cost
                &&& rec.escrow_bump@ == seq![bump]
                &&& spec_plus_thirty_minutes(creation_time@) == Some(rec.end_time@)
                &&& (spec_parse_rfc3339(rec.end_time@) matches Some(end) ==> {
                    &&& end.timestamp == spec_parse_rfc3339(creation_time@)->Some_0.timestamp
                        + 1800
                    &&& spec_minute_aligned(end.minute)
                })
                &&& spec_get(final(store)@, parcel_id@, creation_time@) == Some(rec)
                &&& forall|p: Seq<u8>, t: Seq<char>|
                    #![trigger spec_get(final(store)@, p, t)]
                    !(p == parcel_id@ && t == creation_time@) ==> spec_get(final(store)@, p, t)
                        == spec_get(old(store)@, p, t)
            },
        },
{
    if store.get(parcel_id, creation_time).is_some() {
        return Err(CustomErrors::InvalidRentalAddressPassed);
    }
    let parsed = match parse_rfc3339(creation_time.as_str()) {
        Some(p) => p,
        None => {
            return Err(CustomErrors::InvalidTimeString);
        },
    };
    if !minute_aligned(parsed.minute) {
        return Err(CustomErrors::InvalidTime);
    }
    let end_time = match add_thirty_minutes(creation_time.as_str()) {
        Some(t) => t,
        None => {
            return Err(CustomErrors::InvalidTime);
        },
    };
    let expected_cost = match compute_cost(config.base_cost, quantity) {
        Ok(c) => c,
        Err(e) => {
            return Err(e);
        },
    };
    let fee_quota = compute_fee(expected_cost, config.admin_quota_bps);
    let rec = RentEscrow {
        land_asset_id: *parcel_id,
        creation_time: creation_time.clone(),
        end_time,
        expected_cost,
        fee_quota,
        escrow_bump: [bump],
    };
    assert(rec.escrow_bump@ =~= seq![bump]);
    store.insert(rec);
    Ok(expected_cost)
}

} // verus!
