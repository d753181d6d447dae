//! Escrow record manager.
//!
//! Every rental mint creates one escrow record, keyed by the parcel
//! identity and the window's creation time; the record holds the collected
//! payment until settlement and is destroyed by it. The store keeps at
//! most one record per key: a second creation under the same key fails,
//! and once a record is removed a second settlement cannot reach it.

use vstd::prelude::*;

use crate::identity::{bytes32_eq, Identity};

verus! {

/// One escrow record: the custody entry for a single rental window.
#[derive(Debug)]
pub struct RentEscrow {
    /// The rented parcel.
    pub land_asset_id: Identity,
    /// Start of the rental window, as the RFC 3339 string the caller
    /// supplied; part of the record's key.
    pub creation_time: String,
    /// End of the rental window: the creation time moved thirty minutes
    /// forward, rendered as RFC 3339.
    pub end_time: String,
    /// The payment held in custody.
    pub expected_cost: u64,
    /// The part of `expected_cost` owed to the platform fee account.
    pub fee_quota: u64,
    /// Seed bump of the record's own signing authority.
    pub escrow_bump: [u8; 1],
}

impl RentEscrow {
    /// The fee is taken out of the held payment, so it can never exceed
    /// it.
    pub open spec fn wf(self) -> bool {
        self.fee_quota <= self.expected_cost
    }

    /// The seed values under which this record's own authority signs:
    /// the literal `escrow`, the parcel identity, the creation time and
    /// the bump.
    pub fn escrow_seeds(&self) -> (r: Vec<Vec<u8>>)
        ensures
            r@.len() == 4,
            r@[0]@ == spec_escrow_seed_prefix(),
            r@[1]@ == self.land_asset_id@,
            r@[2]@ == vstd::utf8::encode_utf8(self.creation_time@),
            r@[3]@ == self.escrow_bump@,
    {
        let mut prefix: Vec<u8> = Vec::new();
        prefix.push(101);
        prefix.push(115);
        prefix.push(99);
        prefix.push(114);
        prefix.push(111);
        prefix.push(119);
        assert(prefix@ =~= spec_escrow_seed_prefix());
        let mut seeds: Vec<Vec<u8>> = Vec::new();
        seeds.push(prefix);
        seeds.push(vstd::slice::slice_to_vec(self.land_asset_id.bytes.as_slice()));
        seeds.push(vstd::slice::slice_to_vec(self.creation_time.as_str().as_bytes()));
        seeds.push(vstd::slice::slice_to_vec(self.escrow_bump.as_slice()));
        seeds
    }
}

/// The bytes of the literal `escrow`, first seed of every record's signing
/// authority.
pub open spec fn spec_escrow_seed_prefix() -> Seq<u8> {
    seq![101u8, 115u8, 99u8, 114u8, 111u8, 119u8]
}

/// Whether a record is stored under this key.
pub open spec fn key_matches(r: RentEscrow, parcel: Seq<u8>, time: Seq<char>) -> bool {
    r.land_asset_id@ == parcel && r.creation_time@ == time
}

/// The first record stored under this key, if any.
pub open spec fn spec_get(s: Seq<RentEscrow>, parcel: Seq<u8>, time: Seq<char>) -> Option<
    RentEscrow,
>
    decreases s.len(),
{
    if s.len() == 0 {
        None
    } else if key_matches(s[0], parcel, time) {
        Some(s[0])
    } else {
        spec_get(s.drop_first(), parcel, time)
    }
}

/// Where the first `i` records do not match the key and record `i` does,
/// the lookup returns record `i`.
proof fn lemma_spec_get_first_match(s: Seq<RentEscrow>, parcel: Seq<u8>, time: Seq<char>, i: int)
    requires
        0 <= i < s.len(),
        key_matches(s[i], parcel, time),
        forall|j: int| 0 <= j < i ==> !key_matches(s[j], parcel, time),
    ensures
        spec_get(s, parcel, time) == Some(s[i]),
    decreases i,
{
    if i > 0 {
        lemma_spec_get_first_match(s.drop_first(), parcel, time, i - 1);
    }
}

/// Where no record matches the key, the lookup returns nothing.
proof fn lemma_spec_get_none(s: Seq<RentEscrow>, parcel: Seq<u8>, time: Seq<char>)
    requires
        forall|j: int| 0 <= j < s.len() ==> !key_matches(s[j], parcel, time),
    ensures
        spec_get(s, parcel, time) is None,
    decreases s.len(),
{
    if s.len() > 0 {
        lemma_spec_get_none(s.drop_first(), parcel, time);
    }
}

/// Where the lookup returns nothing, no record matches the key.
proof fn lemma_spec_get_none_inverted(s: Seq<RentEscrow>, parcel: Seq<u8>, time: Seq<char>)
    requires
        spec_get(s, parcel, time) is None,
    ensures
        forall|j: int| 0 <= j < s.len() ==> !key_matches(s[j], parcel, time),
    decreases s.len(),
{
    if s.len() > 0 {
        lemma_spec_get_none_inverted(s.drop_first(), parcel, time);
        assert forall|j: int| 0 <= j < s.len() implies !key_matches(s[j], parcel, time) by {
            if j > 0 {
                assert(s.drop_first()[j - 1] == s[j]);
            }
        }
    }
}

/// Appending a record changes no lookup except the one under its own key,
/// and that one only where it found nothing before.
proof fn lemma_spec_get_push(s: Seq<RentEscrow>, r: RentEscrow, parcel: Seq<u8>, time: Seq<char>)
    ensures
        spec_get(s.push(r), parcel, time) == (if spec_get(s, parcel, time) is Some {
            spec_get(s, parcel, time)
        } else if key_matches(r, parcel, time) {
            Some(r)
        } else {
            None
        }),
    decreases s.len(),
{
    if s.len() == 0 {
        assert(s.push(r)[0] == r);
        assert(s.push(r).drop_first() =~= Seq::<RentEscrow>::empty());
    } else {
        assert(s.push(r)[0] == s[0]);
        assert(s.push(r).drop_first() =~= s.drop_first().push(r));
        lemma_spec_get_push(s.drop_first(), r, parcel, time);
    }
}

/// Removing one record leaves every lookup under a key it does not match
/// unchanged.
proof fn lemma_spec_get_remove_other(
    s: Seq<RentEscrow>,
    i: int,
    parcel: Seq<u8>,
    time: Seq<char>,
)
    requires
        0 <= i < s.len(),
        !key_matches(s[i], parcel, time),
    ensures
        spec_get(s.remove(i), parcel, time) == spec_get(s, parcel, time),
    decreases i,
{
    s.remove_ensures(i);
    if i == 0 {
        assert(s.remove(0) =~= s.drop_first());
    } else {
        assert(s.remove(i)[0] == s[0]);
        assert(s.remove(i).drop_first() =~= s.drop_first().remove(i - 1));
        if !key_matches(s[0], parcel, time) {
            lemma_spec_get_remove_other(s.drop_first(), i - 1, parcel, time);
        }
    }
}

/// The escrow record store: every live rental window's custody entry,
/// at most one per `(parcel, creation time)` key.
#[derive(Debug)]
pub struct EscrowStore {
    records: Vec<RentEscrow>,
}

impl View for EscrowStore {
    type V = Seq<RentEscrow>;

    closed spec fn view(&self) -> Seq<RentEscrow> {
        self.records@
    }
}

impl EscrowStore {
    /// Keys are unique and every record is well-formed.
    pub open spec fn wf(self) -> bool {
        &&& forall|i: int, j: int|
            0 <= i < j < self@.len() ==> !key_matches(
                #[trigger] self@[j],
                #[trigger] self@[i].land_asset_id@,
                self@[i].creation_time@,
            )
        &&& forall|i: int| 0 <= i < self@.len() ==> (#[trigger] self@[i]).wf()
    }

    /// Whether a record is stored under this key.
    pub open spec fn spec_contains(self, parcel: Seq<u8>, time: Seq<char>) -> bool {
        spec_get(self@, parcel, time) is Some
    }

    /// Creates an empty store.
    pub fn new() -> (r: EscrowStore)
        ensures
            r@ =~= Seq::<RentEscrow>::empty(),
            r.wf(),
    {
        EscrowStore { records: Vec::new() }
    }

    /// Number of live escrow records.
    pub fn len(&self) -> (n: usize)
        ensures
            n == self@.len(),
    {
        self.records.len()
    }

    /// Index of the record stored under the key, if any.
    fn position(&self, parcel: &Identity, creation_time: &String) -> (r: Option<usize>)
        ensures
            match r {
                Some(i) => {
                    &&& i < self@.len()
                    &&& key_matches(self@[i as int], parcel@, creation_time@)
                    &&& forall|j: int| 0 <= j < i ==> !key_matches(self@[j], parcel@, creation_time@)
                    &&& spec_get(self@, parcel@, creation_time@) == Some(self@[i as int])
                },
                None => spec_get(self@, parcel@, creation_time@) is None,
            },
    {
        let n = self.records.len();
        let mut i: usize = 0;
        while i < n
            invariant
                n == self@.len(),
                i <= n,
                forall|j: int| 0 <= j < i ==> !key_matches(self@[j], parcel@, creation_time@),
            decreases n - i,
        {
            let rec = &self.records[i];
            if bytes32_eq(&rec.land_asset_id.bytes, &parcel.bytes) && rec.creation_time.eq(
                creation_time,
            ) {
                proof {
                    lemma_spec_get_first_match(self@, parcel@, creation_time@, i as int);
                }
                return Some(i);
            }
            i += 1;
        }
        proof {
            lemma_spec_get_none(self@, parcel@, creation_time@);
        }
        None
    }

    /// Looks the record under a key up.
    pub fn get(&self, parcel: &Identity, creation_time: &String) -> (r: Option<&RentEscrow>)
        ensures
            match r {
                Some(rec) => spec_get(self@, parcel@, creation_time@) == Some(*rec),
                None => spec_get(self@, parcel@, creation_time@) is None,
            },
    {
        match self.position(parcel, creation_time) {
            Some(i) => Some(&self.records[i]),
            None => None,
        }
    }

    /// Adds a record under a key that holds none yet.
    pub(crate) fn insert(&mut self, rec: RentEscrow)
        requires
            old(self).wf(),
            rec.wf(),
            !old(self).spec_contains(rec.land_asset_id@, rec.creation_time@),
        ensures
            final(self).wf(),
            final(self)@ == old(self)@.push(rec),
            forall|p: Seq<u8>, t: Seq<char>|
                #![trigger spec_get(final(self)@, p, t)]
                spec_get(final(self)@, p, t) == (if key_matches(rec, p, t) {
                    Some(rec)
                } else {
                    spec_get(old(self)@, p, t)
                }),
    {
        proof {
            lemma_spec_get_none_inverted(self@, rec.land_asset_id@, rec.creation_time@);
        }
        self.records.push(rec);
        proof {
            let prior = old(self)@;
            assert forall|p: Seq<u8>, t: Seq<char>|
                spec_get(final(self)@, p, t) == (if key_matches(rec, p, t) {
                    Some(rec)
                } else {
                    spec_get(prior, p, t)
                }) by {
                lemma_spec_get_push(prior, rec, p, t);
                if key_matches(rec, p, t) && spec_get(prior, p, t) is Some {
                    lemma_spec_get_some_matches(prior, p, t);
                }
            }
            assert(final(self).wf()) by {
                assert forall|i: int, j: int| 0 <= i < j < final(self)@.len() implies !key_matches(
                    final(self)@[j],
                    final(self)@[i].land_asset_id@,
                    final(self)@[i].creation_time@,
                ) by {
                    if j == final(self)@.len() - 1 {
                        lemma_spec_get_none_inverted(prior, rec.land_asset_id@, rec.creation_time@);
                    }
                }
            }
        }
    }

    /// Removes the record under a key.
    pub(crate) fn remove(&mut self, parcel: &Identity, creation_time: &String) -> (r: RentEscrow)
        requires
            old(self).wf(),
            old(self).spec_contains(parcel@, creation_time@),
        ensures
            final(self).wf(),
            spec_get(old(self)@, parcel@, creation_time@) == Some(r),
            final(self)@.len() == old(self)@.len() - 1,
            spec_get(final(self)@, parcel@, creation_time@) is None,
            forall|p: Seq<u8>, t: Seq<char>|
                #![trigger spec_get(final(self)@, p, t)]
                !(p == parcel@ && t == creation_time@) ==> spec_get(final(self)@, p, t)
                    == spec_get(old(self)@, p, t),
    {
        let i = match self.position(parcel, creation_time) {
            Some(i) => i,
            None => {
                proof {
                    assert(false);
                }
                0
            },
        };
        let removed = self.records.remove(i);
        proof {
            let prior = old(self)@;
            let now = final(self)@;
            prior.remove_ensures(i as int);
            assert(now =~= prior.remove(i as int));
            assert(final(self).wf()) by {
                assert forall|a: int, b: int| 0 <= a < b < now.len() implies !key_matches(
                    now[b],
                    now[a].land_asset_id@,
                    now[a].creation_time@,
                ) by {
                    let a0 = if a < i { a } else { a + 1 };
                    let b0 = if b < i { b } else { b + 1 };
                    assert(now[a] == prior[a0]);
                    assert(now[b] == prior[b0]);
                }
                assert forall|a: int| 0 <= a < now.len() implies (#[trigger] now[a]).wf() by {
                    let a0 = if a < i { a } else { a + 1 };
                    assert(now[a] == prior[a0]);
                }
            }
            assert(spec_get(now, parcel@, creation_time@) is None) by {
                assert forall|j: int| 0 <= j < now.len() implies !key_matches(
                    now[j],
                    parcel@,
                    creation_time@,
                ) by {
                    let j0 = if j < i { j } else { j + 1 };
                    assert(now[j] == prior[j0]);
                    if j0 != i && key_matches(prior[j0], parcel@, creation_time@) {
                        if j0 < i {
                            assert(!key_matches(prior[j0], parcel@, creation_time@));
                        } else {
                            assert(key_matches(prior[i as int], parcel@, creation_time@));
                            assert(!key_matches(
                                prior[j0],
                                prior[i as int].land_asset_id@,
                                prior[i as int].creation_time@,
                            ));
                        }
                    }
                }
                lemma_spec_get_none(now, parcel@, creation_time@);
            }
            assert forall|p: Seq<u8>, t: Seq<char>|
                !(p == parcel@ && t == creation_time@) implies spec_get(now, p, t) == spec_get(
                prior,
                p,
                t,
            ) by {
                assert(!key_matches(prior[i as int], p, t));
                lemma_spec_get_remove_other(prior, i as int, p, t);
            }
        }
        removed
    }
}

/// A record found among well-formed records is well-formed.
pub proof fn lemma_spec_get_element_wf(s: Seq<RentEscrow>, parcel: Seq<u8>, time: Seq<char>)
    requires
        forall|i: int| 0 <= i < s.len() ==> (#[trigger] s[i]).wf(),
        spec_get(s, parcel, time) is Some,
    ensures
        spec_get(s, parcel, time)->Some_0.wf(),
    decreases s.len(),
{
    if s.len() > 0 && !key_matches(s[0], parcel, time) {
        assert forall|i: int| 0 <= i < s.drop_first().len() implies (#[trigger] s.drop_first()[i]).wf() by {
            assert(s.drop_first()[i] == s[i + 1]);
        }
        lemma_spec_get_element_wf(s.drop_first(), parcel, time);
    }
}

/// A successful lookup returns a record stored under the looked-up key.
proof fn lemma_spec_get_some_matches(s: Seq<RentEscrow>, parcel: Seq<u8>, time: Seq<char>)
    requires
        spec_get(s, parcel, time) is Some,
    ensures
        key_matches(spec_get(s, parcel, time)->Some_0, parcel, time),
    decreases s.len(),
{
    if s.len() > 0 && !key_matches(s[0], parcel, time) {
        lemma_spec_get_some_matches(s.drop_first(), parcel, time);
    }
}

} // verus!
