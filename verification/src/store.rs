//! The record store: one passport per identifier, with every operation an
//! atomic read-modify-write on that identifier's entry. Each operation
//! either performs exactly the documented mutation or fails and leaves the
//! whole store unchanged.

use vstd::prelude::*;

use vstd::hash_map::HashMapWithView;

use crate::passport::{
    append_permitted, owner_may_mutate, spec_append_health, spec_append_location,
    spec_append_vaccination, spec_new_passport, spec_transfer_owner, spec_verify_health,
    spec_verify_vaccination, verifier_may_verify, PetData, PetDataView,
};
use crate::records::{
    HealthRecordView, Identity, LocationRecordView, PetPassportError, RecordKind,
    VaccinationRecordView,
};

verus! {

broadcast use vstd::std_specs::hash::group_hash_axioms;

/// The views of the passports a store's table holds, keyed as the table is.
spec fn passport_views(m: Map<u64, PetData>) -> Map<u64, PetDataView> {
    m.map_values(|p: PetData| p@)
}

proof fn lemma_passport_views_insert(m: Map<u64, PetData>, k: u64, v: PetData)
    ensures
        passport_views(m.insert(k, v)) == passport_views(m).insert(k, v@),
{
    assert(passport_views(m.insert(k, v)) =~= passport_views(m).insert(k, v@));
}

proof fn lemma_passport_views_remove(m: Map<u64, PetData>, k: u64)
    ensures
        passport_views(m.remove(k)) == passport_views(m).remove(k),
{
    assert(passport_views(m.remove(k)) =~= passport_views(m).remove(k));
}

/// Keeps one passport per identifier and mediates every mutation through
/// the authorization and capacity checks of [`PetData`].
pub struct PassportStore {
    table: HashMapWithView<u64, PetData>,
}

impl View for PassportStore {
    type V = Map<u64, PetDataView>;

    closed spec fn view(&self) -> Map<u64, PetDataView> {
        passport_views(self.table@)
    }
}

impl PassportStore {
    /// Every passport in the store keeps its logs within capacity.
    pub open spec fn inv(self) -> bool {
        forall|k: u64| #[trigger] self@.contains_key(k) ==> self@[k].wf()
    }

    /// An empty store.
    pub fn new() -> (s: PassportStore)
        ensures
            s@ == Map::<u64, PetDataView>::empty(),
            s.inv(),
    {
        let s = PassportStore { table: HashMapWithView::new() };
        proof {
            assert(s@ =~= Map::<u64, PetDataView>::empty());
        }
        s
    }

    /// Creates the passport for `id` with all three logs empty, owned by
    /// `owner`, and returns a snapshot of it. Fails with `AlreadyExists`,
    /// changing nothing, when `id` already has a passport.
    pub fn create_pet_passport(
        &mut self,
        id: u64,
        name: String,
        species: String,
        breed: String,
        birth_date: i64,
        owner: Identity,
        now: i64,
    ) -> (r: Result<PetData, PetPassportError>)
        requires
            old(self).inv(),
        ensures
            final(self).inv(),
            match r {
                Ok(p) => {
                    &&& !old(self)@.contains_key(id)
                    &&& p@ == spec_new_passport(
                        name@,
                        species@,
                        breed@,
                        birth_date as int,
                        owner,
                        now as int,
                    )
                    &&& final(self)@ == old(self)@.insert(id, p@)
                },
                Err(PetPassportError::AlreadyExists) => old(self)@.contains_key(id)
                    && final(self)@ == old(self)@,
                Err(_) => false,
            },
    {
        if self.table.contains_key(&id) {
            return Err(PetPassportError::AlreadyExists);
        }
        let snapshot = PetData::new(
            name.clone(),
            species.clone(),
            breed.clone(),
            birth_date,
            owner,
            now,
        );
        let stored = PetData::new(name, species, breed, birth_date, owner, now);
        let ghost before = self.table@;
        let ghost gstored = stored;
        self.table.insert(id, stored);
        proof {
            lemma_passport_views_insert(before, id, gstored);
            assert forall|k: u64| #[trigger] self@.contains_key(k) implies self@[k].wf() by {
                if k != id {
                    assert(old(self)@.contains_key(k));
                }
            }
        }
        Ok(snapshot)
    }

    /// Appends a vaccination entry, unverified, to the passport for `id` on
    /// behalf of `caller`. Succeeds exactly when the passport exists,
    /// `caller` is its current owner, and its vaccination log is below
    /// capacity; any failure leaves the store unchanged.
    pub fn add_vaccination_record(
        &mut self,
        id: u64,
        caller: Identity,
        vaccine_name: String,
        date_administered: i64,
        next_due_date: i64,
        veterinarian: String,
        now: i64,
    ) -> (r: Result<(), PetPassportError>)
        requires
            old(self).inv(),
            old(self)@.contains_key(id) ==> now >= old(self)@[id].last_updated,
        ensures
            final(self).inv(),
            match r {
                Ok(()) => {
                    &&& old(self)@.contains_key(id)
                    &&& owner_may_mutate(old(self)@[id], caller)
                    &&& append_permitted(old(self)@[id], RecordKind::Vaccination)
                    &&& final(self)@ == old(self)@.insert(
                        id,
                        spec_append_vaccination(
                            old(self)@[id],
                            (VaccinationRecordView {
                                vaccine_name: vaccine_name@,
                                date_administered: date_administered as int,
                                next_due_date: next_due_date as int,
                                veterinarian: veterinarian@,
                                verified: false,
                            }),
                            now as int,
                        ),
                    )
                },
                Err(PetPassportError::NotFound) => !old(self)@.contains_key(id)
                    && final(self)@ == old(self)@,
                Err(PetPassportError::Unauthorized) => old(self)@.contains_key(id)
                    && !owner_may_mutate(old(self)@[id], caller) && final(self)@ == old(self)@,
                Err(PetPassportError::CapacityExceeded) => old(self)@.contains_key(id)
                    && owner_may_mutate(old(self)@[id], caller) && !append_permitted(
                    old(self)@[id],
                    RecordKind::Vaccination,
                ) && final(self)@ == old(self)@,
                Err(_) => false,
            },
    {
        let ghost before = self.table@;
        match self.table.remove(&id) {
            None => Err(PetPassportError::NotFound),
            Some(mut pd) => {
                let r = pd.add_vaccination_record(
                    caller,
                    vaccine_name,
                    date_administered,
                    next_due_date,
                    veterinarian,
                    now,
                );
                let ghost gpd = pd;
                self.table.insert(id, pd);
                proof {
                    lemma_passport_views_remove(before, id);
                    lemma_passport_views_insert(before.remove(id), id, gpd);
                    assert(passport_views(before).remove(id).insert(id, gpd@)
                        =~= passport_views(before).insert(id, gpd@));
                    assert(gpd@ == passport_views(before)[id] ==> passport_views(before).insert(
                        id,
                        gpd@,
                    ) =~= passport_views(before));
                    assert forall|k: u64| #[trigger] self@.contains_key(k) implies self@[k].wf()
                    by {
                        if k != id {
                            assert(old(self)@.contains_key(k));
                        }
                    }
                }
                r
            },
        }
    }

    /// Appends a health entry, unverified, to the passport for `id` on
    /// behalf of `caller`. Succeeds exactly when the passport exists,
    /// `caller` is its current owner, and its health log is below capacity;
    /// any failure leaves the store unchanged.
    pub fn add_health_record(
        &mut self,
        id: u64,
        caller: Identity,
        record_type: String,
        date: i64,
        description: String,
        veterinarian: String,
        now: i64,
    ) -> (r: Result<(), PetPassportError>)
        requires
            old(self).inv(),
            old(self)@.contains_key(id) ==> now >= old(self)@[id].last_updated,
        ensures
            final(self).inv(),
            match r {
                Ok(()) => {
                    &&& old(self)@.contains_key(id)
                    &&& owner_may_mutate(old(self)@[id], caller)
                    &&& append_permitted(old(self)@[id], RecordKind::Health)
                    &&& final(self)@ == old(self)@.insert(
                        id,
                        spec_append_health(
                            old(self)@[id],
                            (HealthRecordView {
                                record_type: record_type@,
                                date: date as int,
                                description: description@,
                                veterinarian: veterinarian@,
                                verified: false,
                            }),
                            now as int,
                        ),
                    )
                },
                Err(PetPassportError::NotFound) => !old(self)@.contains_key(id)
                    && final(self)@ == old(self)@,
                Err(PetPassportError::Unauthorized) => old(self)@.contains_key(id)
                    && !owner_may_mutate(old(self)@[id], caller) && final(self)@ == old(self)@,
                Err(PetPassportError::CapacityExceeded) => old(self)@.contains_key(id)
                    && owner_may_mutate(old(self)@[id], caller) && !append_permitted(
                    old(self)@[id],
                    RecordKind::Health,
                ) && final(self)@ == old(self)@,
                Err(_) => false,
            },
    {
        let ghost before = self.table@;
        match self.table.remove(&id) {
            None => Err(PetPassportError::NotFound),
            Some(mut pd) => {
                let r = pd.add_health_record(
                    caller,
                    record_type,
                    date,
                    description,
                    veterinarian,
                    now,
                );
                let ghost gpd = pd;
                self.table.insert(id, pd);
                proof {
                    lemma_passport_views_remove(before, id);
                    lemma_passport_views_insert(before.remove(id), id, gpd);
                    assert(passport_views(before).remove(id).insert(id, gpd@)
                        =~= passport_views(before).insert(id, gpd@));
                    assert(gpd@ == passport_views(before)[id] ==> passport_views(before).insert(
                        id,
                        gpd@,
                    ) =~= passport_views(before));
                    assert forall|k: u64| #[trigger] self@.contains_key(k) implies self@[k].wf()
                    by {
                        if k != id {
                            assert(old(self)@.contains_key(k));
                        }
                    }
                }
                r
            },
        }
    }

    /// Appends a location entry to the passport for `id` on behalf of
    /// `caller`. Succeeds exactly when the passport exists, `caller` is its
    /// current owner, and its location log is below capacity; any failure
    /// leaves the store unchanged.
    pub fn add_location_record(
        &mut self,
        id: u64,
        caller: Identity,
        location: String,
        timestamp: i64,
        event_type: String,
        now: i64,
    ) -> (r: Result<(), PetPassportError>)
        requires
            old(self).inv(),
            old(self)@.contains_key(id) ==> now >= old(self)@[id].last_updated,
        ensures
            final(self).inv(),
            match r {
                Ok(()) => {
                    &&& old(self)@.contains_key(id)
                    &&& owner_may_mutate(old(self)@[id], caller)
                    &&& append_permitted(old(self)@[id], RecordKind::Location)
                    &&& final(self)@ == old(self)@.insert(
                        id,
                        spec_append_location(
                            old(self)@[id],
                            (LocationRecordView {
                                location: location@,
                                timestamp: timestamp as int,
                                event_type: event_type@,
                            }),
                            now as int,
                        ),
                    )
                },
                Err(PetPassportError::NotFound) => !old(self)@.contains_key(id)
                    && final(self)@ == old(self)@,
                Err(PetPassportError::Unauthorized) => old(self)@.contains_key(id)
                    && !owner_may_mutate(old(self)@[id], caller) && final(self)@ == old(self)@,
                Err(PetPassportError::CapacityExceeded) => old(self)@.contains_key(id)
                    && owner_may_mutate(old(self)@[id], caller) && !append_permitted(
                    old(self)@[id],
                    RecordKind::Location,
                ) && final(self)@ == old(self)@,
                Err(_) => false,
            },
    {
        let ghost before = self.table@;
        match self.table.remove(&id) {
            None => Err(PetPassportError::NotFound),
            Some(mut pd) => {
                let r = pd.add_location_record(caller, location, timestamp, event_type, now);
                let ghost gpd = pd;
                self.table.insert(id, pd);
                proof {
                    lemma_passport_views_remove(before, id);
                    lemma_passport_views_insert(before.remove(id), id, gpd);
                    assert(passport_views(before).remove(id).insert(id, gpd@)
                        =~= passport_views(before).insert(id, gpd@));
                    assert(gpd@ == passport_views(before)[id] ==> passport_views(before).insert(
                        id,
                        gpd@,
                    ) =~= passport_views(before));
                    assert forall|k: u64| #[trigger] self@.contains_key(k) implies self@[k].wf()
                    by {
                        if k != id {
                            assert(old(self)@.contains_key(k));
                        }
                    }
                }
                r
            },
        }
    }

    /// Transfers ownership of the passport for `id` to `new_owner` on
    /// behalf of `caller`. Succeeds exactly when the passport exists and
    /// `caller` is its current owner; any failure leaves the store
    /// unchanged.
    pub fn update_owner(
        &mut self,
        id: u64,
        caller: Identity,
        new_owner: Identity,
        now: i64,
    ) -> (r: Result<(), PetPassportError>)
        requires
            old(self).inv(),
            old(self)@.contains_key(id) ==> now >= old(self)@[id].last_updated,
        ensures
            final(self).inv(),
            match r {
                Ok(()) => {
                    &&& old(self)@.contains_key(id)
                    &&& owner_may_mutate(old(self)@[id], caller)
                    &&& final(self)@ == old(self)@.insert(
                        id,
                        spec_transfer_owner(old(self)@[id], new_owner, now as int),
                    )
                },
                Err(PetPassportError::NotFound) => !old(self)@.contains_key(id)
                    && final(self)@ == old(self)@,
                Err(PetPassportError::Unauthorized) => old(self)@.contains_key(id)
                    && !owner_may_mutate(old(self)@[id], caller) && final(self)@ == old(self)@,
                Err(_) => false,
            },
    {
        let ghost before = self.table@;
        match self.table.remove(&id) {
            None => Err(PetPassportError::NotFound),
            Some(mut pd) => {
                let r = pd.update_owner(caller, new_owner, now);
                let ghost gpd = pd;
                self.table.insert(id, pd);
                proof {
                    lemma_passport_views_remove(before, id);
                    lemma_passport_views_insert(before.remove(id), id, gpd);
                    assert(passport_views(before).remove(id).insert(id, gpd@)
                        =~= passport_views(before).insert(id, gpd@));
                    assert(gpd@ == passport_views(before)[id] ==> passport_views(before).insert(
                        id,
                        gpd@,
                    ) =~= passport_views(before));
                    assert forall|k: u64| #[trigger] self@.contains_key(k) implies self@[k].wf()
                    by {
                        if k != id {
                            assert(old(self)@.contains_key(k));
                        }
                    }
                }
                r
            },
        }
    }

    /// Marks one vaccination or health entry of the passport for `id` as
    /// verified on behalf of `caller`. Verifying an already-verified entry
    /// is a successful no-op; any failure leaves the store unchanged.
    pub fn verify_record(
        &mut self,
        id: u64,
        caller: Identity,
        record_kind: RecordKind,
        record_index: u32,
        now: i64,
    ) -> (r: Result<(), PetPassportError>)
        requires
            old(self).inv(),
            old(self)@.contains_key(id) ==> now >= old(self)@[id].last_updated,
        ensures
            final(self).inv(),
            match r {
                Ok(()) => {
                    &&& old(self)@.contains_key(id)
                    &&& verifier_may_verify(caller)
                    &&& (record_kind == RecordKind::Vaccination || record_kind
                        == RecordKind::Health)
                    &&& (record_index as int) < old(self)@[id].log_len(record_kind)
                    &&& final(self)@ == old(self)@.insert(
                        id,
                        if record_kind == RecordKind::Vaccination {
                            spec_verify_vaccination(old(self)@[id], record_index as int, now as int)
                        } else {
                            spec_verify_health(old(self)@[id], record_index as int, now as int)
                        },
                    )
                },
                Err(PetPassportError::NotFound) => !old(self)@.contains_key(id)
                    && final(self)@ == old(self)@,
                Err(PetPassportError::Unauthorized) => old(self)@.contains_key(id)
                    && !verifier_may_verify(caller) && final(self)@ == old(self)@,
                Err(PetPassportError::InvalidRecordKind) => old(self)@.contains_key(id)
                    && verifier_may_verify(caller) && record_kind == RecordKind::Location
                    && final(self)@ == old(self)@,
                Err(PetPassportError::IndexOutOfRange) => {
                    &&& old(self)@.contains_key(id)
                    &&& verifier_may_verify(caller)
                    &&& (record_kind == RecordKind::Vaccination || record_kind
                        == RecordKind::Health)
                    &&& (record_index as int) >= old(self)@[id].log_len(record_kind)
                    &&& final(self)@ == old(self)@
                },
                Err(_) => false,
            },
    {
        let ghost before = self.table@;
        match self.table.remove(&id) {
            None => Err(PetPassportError::NotFound),
            Some(mut pd) => {
                proof {
                    assert(old(self)@.contains_key(id));
                    assert(pd@ == old(self)@[id]);
                }
                let r = pd.verify_record(caller, record_kind, record_index, now);
                let ghost gpd = pd;
                self.table.insert(id, pd);
                proof {
                    lemma_passport_views_remove(before, id);
                    lemma_passport_views_insert(before.remove(id), id, gpd);
                    assert(passport_views(before).remove(id).insert(id, gpd@)
                        =~= passport_views(before).insert(id, gpd@));
                    assert(gpd@ == passport_views(before)[id] ==> passport_views(before).insert(
                        id,
                        gpd@,
                    ) =~= passport_views(before));
                    assert forall|k: u64| #[trigger] self@.contains_key(k) implies self@[k].wf()
                    by {
                        if k != id {
                            assert(old(self)@.contains_key(k));
                        }
                    }
                }
                r
            },
        }
    }

    /// Returns the current snapshot of the passport for `id`. Any caller may
    /// read; fails with `NotFound` when no passport exists under `id`.
    pub fn get_pet_data(&self, id: u64) -> (r: Result<&PetData, PetPassportError>)
        ensures
            match r {
                Ok(p) => self@.contains_key(id) && p@ == self@[id],
                Err(PetPassportError::NotFound) => !self@.contains_key(id),
                Err(_) => false,
            },
    {
        match self.table.get(&id) {
            Some(p) => Ok(p),
            None => Err(PetPassportError::NotFound),
        }
    }
}

} // verus!
