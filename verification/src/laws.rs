//! The general laws of the passport store, stated over the same spec
//! functions the operations' contracts use and proved once and for all.
//! Scenario-shaped properties live in the test suite instead.

use vstd::prelude::*;

use crate::passport::{
    owner_may_mutate, spec_append_vaccination, spec_new_passport, spec_transfer_owner,
    spec_verify_health, spec_verify_vaccination, PetDataView,
};
use crate::records::{Identity, VaccinationRecordView};

verus! {

/// `create` followed by `read`: under a fresh identifier, the passport read
/// back is exactly the created one — all three logs empty, the given owner,
/// and `last_updated` set to the creation time.
pub proof fn lemma_create_then_read(
    m: Map<u64, PetDataView>,
    id: u64,
    name: Seq<char>,
    species: Seq<char>,
    breed: Seq<char>,
    birth_date: int,
    owner: Identity,
    now: int,
)
    requires
        !m.contains_key(id),
    ensures
        ({
            let m2 = m.insert(id, spec_new_passport(name, species, breed, birth_date, owner, now));
            &&& m2.contains_key(id)
            &&& m2[id].vaccination_records.len() == 0
            &&& m2[id].health_records.len() == 0
            &&& m2[id].location_history.len() == 0
            &&& m2[id].owner == owner
            &&& m2[id].last_updated == now
        }),
{
}

/// Verifying a vaccination entry that is already verified leaves the
/// passport exactly as it was, whatever time the call carries.
pub proof fn lemma_verify_vaccination_idempotent(p: PetDataView, i: int, now: int)
    requires
        0 <= i < p.vaccination_records.len(),
        p.vaccination_records[i].verified,
    ensures
        spec_verify_vaccination(p, i, now) == p,
{
}

/// Verifying a health entry that is already verified leaves the passport
/// exactly as it was, whatever time the call carries.
pub proof fn lemma_verify_health_idempotent(p: PetDataView, i: int, now: int)
    requires
        0 <= i < p.health_records.len(),
        p.health_records[i].verified,
    ensures
        spec_verify_health(p, i, now) == p,
{
}

/// After a transfer to a different identity, the new owner controls the
/// passport and the old owner no longer satisfies the owner policy — so
/// every subsequent append by the old owner fails with `Unauthorized`, by
/// the append contracts.
pub proof fn lemma_transfer_locks_out_old_owner(
    p: PetDataView,
    old_owner: Identity,
    new_owner: Identity,
    now: int,
)
    requires
        owner_may_mutate(p, old_owner),
        old_owner != new_owner,
    ensures
        ({
            let q = spec_transfer_owner(p, new_owner, now);
            &&& q.owner == new_owner
            &&& owner_may_mutate(q, new_owner)
            &&& !owner_may_mutate(q, old_owner)
        }),
{
}

/// Appends are append-only: a successful vaccination append keeps every
/// existing entry unchanged at its index and adds exactly one unverified
/// entry at the end. (The health and location transitions push in the same
/// way; this pins the shape once for the log whose entries `verify` and the
/// scenarios exercise most.)
pub proof fn lemma_append_vaccination_extends(p: PetDataView, r: VaccinationRecordView, now: int)
    ensures
        ({
            let q = spec_append_vaccination(p, r, now);
            &&& q.vaccination_records.len() == p.vaccination_records.len() + 1
            &&& forall|i: int|
                0 <= i < p.vaccination_records.len() ==> q.vaccination_records[i]
                    == p.vaccination_records[i]
            &&& q.vaccination_records[p.vaccination_records.len() as int] == r
            &&& q.health_records == p.health_records
            &&& q.location_history == p.location_history
        }),
{
}

/// `verify` mutates at most one bit: a successful verification of
/// vaccination entry `i` leaves every other entry, every other log, and all
/// identity fields unchanged, and entry `i` differs at most in its
/// `verified` flag, which afterwards is set.
pub proof fn lemma_verify_vaccination_frame(p: PetDataView, i: int, now: int)
    requires
        0 <= i < p.vaccination_records.len(),
    ensures
        ({
            let q = spec_verify_vaccination(p, i, now);
            &&& q.vaccination_records.len() == p.vaccination_records.len()
            &&& forall|j: int|
                0 <= j < p.vaccination_records.len() && j != i ==> q.vaccination_records[j]
                    == p.vaccination_records[j]
            &&& q.vaccination_records[i].verified
            &&& q.vaccination_records[i].vaccine_name == p.vaccination_records[i].vaccine_name
            &&& q.vaccination_records[i].date_administered == p.vaccination_records[
                i
            ].date_administered
            &&& q.vaccination_records[i].next_due_date == p.vaccination_records[i].next_due_date
            &&& q.vaccination_records[i].veterinarian == p.vaccination_records[i].veterinarian
            &&& q.health_records == p.health_records
            &&& q.location_history == p.location_history
            &&& q.owner == p.owner
            &&& q.name == p.name
            &&& q.species == p.species
            &&& q.breed == p.breed
            &&& q.birth_date == p.birth_date
        }),
{
}

} // verus!
