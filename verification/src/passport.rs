//! A single passport: the identity fields of one animal plus its three
//! bounded, append-only logs, together with the authorization policies and
//! the spec-level transition functions every operation is proved against.

use vstd::prelude::*;

use crate::records::{
    HealthRecord, HealthRecordView, Identity, LocationRecord, LocationRecordView,
    PetPassportError, RecordKind, VaccinationRecord, VaccinationRecordView,
};
use crate::MAX_LOG_ENTRIES;

verus! {

/// The identity record for one animal: descriptive fields, the controlling
/// owner, the time of the last successful mutation, and the three logs.
pub struct PetData {
    pub name: String,
    pub species: String,
    pub breed: String,
    pub birth_date: i64,
    pub owner: Identity,
    pub last_updated: i64,
    pub vaccination_records: Vec<VaccinationRecord>,
    pub health_records: Vec<HealthRecord>,
    pub location_history: Vec<LocationRecord>,
}

/// Mathematical model of a [`PetData`].
pub ghost struct PetDataView {
    pub name: Seq<char>,
    pub species: Seq<char>,
    pub breed: Seq<char>,
    pub birth_date: int,
    pub owner: Identity,
    pub last_updated: int,
    pub vaccination_records: Seq<VaccinationRecordView>,
    pub health_records: Seq<HealthRecordView>,
    pub location_history: Seq<LocationRecordView>,
}

/// The views of the entries of a vaccination log.
pub open spec fn vaccination_views(s: Seq<VaccinationRecord>) -> Seq<VaccinationRecordView> {
    s.map_values(|r: VaccinationRecord| r@)
}

/// The views of the entries of a health log.
pub open spec fn health_views(s: Seq<HealthRecord>) -> Seq<HealthRecordView> {
    s.map_values(|r: HealthRecord| r@)
}

/// The views of the entries of a location log.
pub open spec fn location_views(s: Seq<LocationRecord>) -> Seq<LocationRecordView> {
    s.map_values(|r: LocationRecord| r@)
}

impl View for PetData {
    type V = PetDataView;

    open spec fn view(&self) -> PetDataView {
        PetDataView {
            name: self.name@,
            species: self.species@,
            breed: self.breed@,
            birth_date: self.birth_date as int,
            owner: self.owner,
            last_updated: self.last_updated as int,
            vaccination_records: vaccination_views(self.vaccination_records@),
            health_records: health_views(self.health_records@),
            location_history: location_views(self.location_history@),
        }
    }
}

impl PetDataView {
    /// Every log is within the capacity fixed at creation.
    pub open spec fn wf(self) -> bool {
        &&& self.vaccination_records.len() <= MAX_LOG_ENTRIES
        &&& self.health_records.len() <= MAX_LOG_ENTRIES
        &&& self.location_history.len() <= MAX_LOG_ENTRIES
    }

    /// Length of the log addressed by `kind`.
    pub open spec fn log_len(self, kind: RecordKind) -> int {
        match kind {
            RecordKind::Vaccination => self.vaccination_records.len() as int,
            RecordKind::Health => self.health_records.len() as int,
            RecordKind::Location => self.location_history.len() as int,
        }
    }
}

/// Owner policy: the caller may mutate a passport exactly when it is the
/// current owner.
pub open spec fn owner_may_mutate(p: PetDataView, caller: Identity) -> bool {
    caller == p.owner
}

/// Verifier policy: any present (non-degenerate) identity may verify
/// entries. Kept separate from the owner policy so that it can be replaced
/// by a registry of accredited verifiers without touching ownership logic.
pub open spec fn verifier_may_verify(caller: Identity) -> bool {
    caller.is_present()
}

/// An append to the log addressed by `kind` is permitted exactly when the
/// log is below its fixed capacity.
pub open spec fn append_permitted(p: PetDataView, kind: RecordKind) -> bool {
    p.log_len(kind) < MAX_LOG_ENTRIES
}

/// The passport produced by `create`: the given identity fields, all three
/// logs empty, `last_updated` set to the creation time.
pub open spec fn spec_new_passport(
    name: Seq<char>,
    species: Seq<char>,
    breed: Seq<char>,
    birth_date: int,
    owner: Identity,
    now: int,
) -> PetDataView {
    PetDataView {
        name: name,
        species: species,
        breed: breed,
        birth_date: birth_date,
        owner: owner,
        last_updated: now,
        vaccination_records: Seq::empty(),
        health_records: Seq::empty(),
        location_history: Seq::empty(),
    }
}

/// State after a successful vaccination append.
pub open spec fn spec_append_vaccination(
    p: PetDataView,
    r: VaccinationRecordView,
    now: int,
) -> PetDataView {
    PetDataView { vaccination_records: p.vaccination_records.push(r), last_updated: now, ..p }
}

/// State after a successful health append.
pub open spec fn spec_append_health(
    p: PetDataView,
    r: HealthRecordView,
    now: int,
) -> PetDataView {
    PetDataView { health_records: p.health_records.push(r), last_updated: now, ..p }
}

/// State after a successful location append.
pub open spec fn spec_append_location(
    p: PetDataView,
    r: LocationRecordView,
    now: int,
) -> PetDataView {
    PetDataView { location_history: p.location_history.push(r), last_updated: now, ..p }
}

/// State after a successful ownership transfer.
pub open spec fn spec_transfer_owner(
    p: PetDataView,
    new_owner: Identity,
    now: int,
) -> PetDataView {
    PetDataView { owner: new_owner, last_updated: now, ..p }
}

/// State after a successful `verify` of vaccination entry `i`. Verifying an
/// already-verified entry is a no-op: the state is left exactly as it was.
pub open spec fn spec_verify_vaccination(p: PetDataView, i: int, now: int) -> PetDataView
    recommends
        0 <= i < p.vaccination_records.len(),
{
    if p.vaccination_records[i].verified {
        p
    } else {
        PetDataView {
            vaccination_records: p.vaccination_records.update(
                i,
                VaccinationRecordView { verified: true, ..p.vaccination_records[i] },
            ),
            last_updated: now,
            ..p
        }
    }
}

/// State after a successful `verify` of health entry `i`. Verifying an
/// already-verified entry is a no-op: the state is left exactly as it was.
pub open spec fn spec_verify_health(p: PetDataView, i: int, now: int) -> PetDataView
    recommends
        0 <= i < p.health_records.len(),
{
    if p.health_records[i].verified {
        p
    } else {
        PetDataView {
            health_records: p.health_records.update(
                i,
                HealthRecordView { verified: true, ..p.health_records[i] },
            ),
            last_updated: now,
            ..p
        }
    }
}

proof fn lemma_vaccination_views_push(s: Seq<VaccinationRecord>, x: VaccinationRecord)
    ensures
        vaccination_views(s.push(x)) == vaccination_views(s).push(x@),
{
    assert(vaccination_views(s.push(x)) =~= vaccination_views(s).push(x@));
}

proof fn lemma_health_views_push(s: Seq<HealthRecord>, x: HealthRecord)
    ensures
        health_views(s.push(x)) == health_views(s).push(x@),
{
    assert(health_views(s.push(x)) =~= health_views(s).push(x@));
}

proof fn lemma_location_views_push(s: Seq<LocationRecord>, x: LocationRecord)
    ensures
        location_views(s.push(x)) == location_views(s).push(x@),
{
    assert(location_views(s.push(x)) =~= location_views(s).push(x@));
}

proof fn lemma_vaccination_views_update(s: Seq<VaccinationRecord>, i: int, x: VaccinationRecord)
    requires
        0 <= i < s.len(),
    ensures
        vaccination_views(s.update(i, x)) == vaccination_views(s).update(i, x@),
{
    assert(vaccination_views(s.update(i, x)) =~= vaccination_views(s).update(i, x@));
}

proof fn lemma_health_views_update(s: Seq<HealthRecord>, i: int, x: HealthRecord)
    requires
        0 <= i < s.len(),
    ensures
        health_views(s.update(i, x)) == health_views(s).update(i, x@),
{
    assert(health_views(s.update(i, x)) =~= health_views(s).update(i, x@));
}

impl PetData {
    /// Builds the passport `create` stores: the given identity fields, all
    /// three logs empty, `last_updated` set to the creation time `now`.
    pub fn new(
        name: String,
        species: String,
        breed: String,
        birth_date: i64,
        owner: Identity,
        now: i64,
    ) -> (p: PetData)
        ensures
            p@ == spec_new_passport(
                name@,
                species@,
                breed@,
                birth_date as int,
                owner,
                now as int,
            ),
            p@.wf(),
    {
        let p = PetData {
            name,
            species,
            breed,
            birth_date,
            owner,
            last_updated: now,
            vaccination_records: Vec::new(),
            health_records: Vec::new(),
            location_history: Vec::new(),
        };
        proof {
            assert(vaccination_views(p.vaccination_records@) =~= Seq::<
                VaccinationRecordView,
            >::empty());
            assert(health_views(p.health_records@) =~= Seq::<HealthRecordView>::empty());
            assert(location_views(p.location_history@) =~= Seq::<LocationRecordView>::empty());
        }
        p
    }

    /// How many more entries the log addressed by `kind` can take before
    /// appends fail with [`PetPassportError::CapacityExceeded`].
    pub fn capacity_remaining(&self, kind: RecordKind) -> (n: usize)
        requires
            self@.wf(),
        ensures
            n as int == MAX_LOG_ENTRIES - self@.log_len(kind),
    {
        match kind {
            RecordKind::Vaccination => MAX_LOG_ENTRIES - self.vaccination_records.len(),
            RecordKind::Health => MAX_LOG_ENTRIES - self.health_records.len(),
            RecordKind::Location => MAX_LOG_ENTRIES - self.location_history.len(),
        }
    }

    /// Appends a vaccination entry, unverified, on behalf of `caller`.
    /// Succeeds exactly when `caller` is the current owner and the log is
    /// below capacity; any failure leaves the passport untouched.
    pub fn add_vaccination_record(
        &mut self,
        caller: Identity,
        vaccine_name: String,
        date_administered: i64,
        next_due_date: i64,
        veterinarian: String,
        now: i64,
    ) -> (r: Result<(), PetPassportError>)
        requires
            old(self)@.wf(),
            now >= old(self)@.last_updated,
        ensures
            final(self)@.wf(),
            final(self)@.last_updated >= old(self)@.last_updated,
            match r {
                Ok(()) => {
                    &&& owner_may_mutate(old(self)@, caller)
                    &&& append_permitted(old(self)@, RecordKind::Vaccination)
                    &&& final(self)@ == spec_append_vaccination(
                        old(self)@,
                        (VaccinationRecordView {
                            vaccine_name: vaccine_name@,
                            date_administered: date_administered as int,
                            next_due_date: next_due_date as int,
                            veterinarian: veterinarian@,
                            verified: false,
                        }),
                        now as int,
                    )
                },
                Err(PetPassportError::Unauthorized) => !owner_may_mutate(old(self)@, caller)
                    && final(self)@ == old(self)@,
                Err(PetPassportError::CapacityExceeded) => owner_may_mutate(old(self)@, caller)
                    && !append_permitted(old(self)@, RecordKind::Vaccination) && final(self)@
                    == old(self)@,
                Err(_) => false,
            },
    {
        if caller != self.owner {
            return Err(PetPassportError::Unauthorized);
        }
        if self.vaccination_records.len() >= MAX_LOG_ENTRIES {
            return Err(PetPassportError::CapacityExceeded);
        }
        let record = VaccinationRecord {
            vaccine_name,
            date_administered,
            next_due_date,
            veterinarian,
            verified: false,
        };
        let ghost prior = self.vaccination_records@;
        let ghost grecord = record;
        self.vaccination_records.push(record);
        self.last_updated = now;
        proof {
            lemma_vaccination_views_push(prior, grecord);
        }
        Ok(())
    }

    /// Appends a health entry, unverified, on behalf of `caller`.
    /// Succeeds exactly when `caller` is the current owner and the log is
    /// below capacity; any failure leaves the passport untouched.
    pub fn add_health_record(
        &mut self,
        caller: Identity,
        record_type: String,
        date: i64,
        description: String,
        veterinarian: String,
        now: i64,
    ) -> (r: Result<(), PetPassportError>)
        requires
            old(self)@.wf(),
            now >= old(self)@.last_updated,
        ensures
            final(self)@.wf(),
            final(self)@.last_updated >= old(self)@.last_updated,
            match r {
                Ok(()) => {
                    &&& owner_may_mutate(old(self)@, caller)
                    &&& append_permitted(old(self)@, RecordKind::Health)
                    &&& final(self)@ == spec_append_health(
                        old(self)@,
                        (HealthRecordView {
                            record_type: record_type@,
                            date: date as int,
                            description: description@,
                            veterinarian: veterinarian@,
                            verified: false,
                        }),
                        now as int,
                    )
                },
                Err(PetPassportError::Unauthorized) => !owner_may_mutate(old(self)@, caller)
                    && final(self)@ == old(self)@,
                Err(PetPassportError::CapacityExceeded) => owner_may_mutate(old(self)@, caller)
                    && !append_permitted(old(self)@, RecordKind::Health) && final(self)@ == old(self)@,
                Err(_) => false,
            },
    {
        if caller != self.owner {
            return Err(PetPassportError::Unauthorized);
        }
        if self.health_records.len() >= MAX_LOG_ENTRIES {
            return Err(PetPassportError::CapacityExceeded);
        }
        let record = HealthRecord { record_type, date, description, veterinarian, verified: false };
        let ghost prior = self.health_records@;
        let ghost grecord = record;
        self.health_records.push(record);
        self.last_updated = now;
        proof {
            lemma_health_views_push(prior, grecord);
        }
        Ok(())
    }

    /// Appends a location entry on behalf of `caller`. Location entries are
    /// immutable once appended and carry no verification flag.
    /// Succeeds exactly when `caller` is the current owner and the log is
    /// below capacity; any failure leaves the passport untouched.
    pub fn add_location_record(
        &mut self,
        caller: Identity,
        location: String,
        timestamp: i64,
        event_type: String,
        now: i64,
    ) -> (r: Result<(), PetPassportError>)
        requires
            old(self)@.wf(),
            now >= old(self)@.last_updated,
        ensures
            final(self)@.wf(),
            final(self)@.last_updated >= old(self)@.last_updated,
            match r {
                Ok(()) => {
                    &&& owner_may_mutate(old(self)@, caller)
                    &&& append_permitted(old(self)@, RecordKind::Location)
                    &&& final(self)@ == spec_append_location(
                        old(self)@,
                        (LocationRecordView {
                            location: location@,
                            timestamp: timestamp as int,
                            event_type: event_type@,
                        }),
                        now as int,
                    )
                },
                Err(PetPassportError::Unauthorized) => !owner_may_mutate(old(self)@, caller)
                    && final(self)@ == old(self)@,
                Err(PetPassportError::CapacityExceeded) => owner_may_mutate(old(self)@, caller)
                    && !append_permitted(old(self)@, RecordKind::Location) && final(self)@ == old(self)@,
                Err(_) => false,
            },
    {
        if caller != self.owner {
            return Err(PetPassportError::Unauthorized);
        }
        if self.location_history.len() >= MAX_LOG_ENTRIES {
            return Err(PetPassportError::CapacityExceeded);
        }
        let record = LocationRecord { location, timestamp, event_type };
        let ghost prior = self.location_history@;
        let ghost grecord = record;
        self.location_history.push(record);
        self.last_updated = now;
        proof {
            lemma_location_views_push(prior, grecord);
        }
        Ok(())
    }

    /// Replaces the owner on behalf of `caller`. Succeeds exactly when
    /// `caller` is the current owner; failure leaves the passport untouched.
    /// Transfer is a total replacement: afterwards `new_owner` is the one
    /// controlling identity.
    pub fn update_owner(&mut self, caller: Identity, new_owner: Identity, now: i64) -> (r: Result<
        (),
        PetPassportError,
    >)
        requires
            old(self)@.wf(),
            now >= old(self)@.last_updated,
        ensures
            final(self)@.wf(),
            final(self)@.last_updated >= old(self)@.last_updated,
            match r {
                Ok(()) => owner_may_mutate(old(self)@, caller) && final(self)@
                    == spec_transfer_owner(old(self)@, new_owner, now as int),
                Err(PetPassportError::Unauthorized) => !owner_may_mutate(old(self)@, caller)
                    && final(self)@ == old(self)@,
                Err(_) => false,
            },
    {
        if caller != self.owner {
            return Err(PetPassportError::Unauthorized);
        }
        self.owner = new_owner;
        self.last_updated = now;
        Ok(())
    }

    /// Marks one vaccination or health entry as verified on behalf of
    /// `caller`. Location entries are not verifiable. Verifying an entry
    /// that is already verified is a successful no-op; any failure leaves
    /// the passport untouched.
    pub fn verify_record(
        &mut self,
        caller: Identity,
        record_kind: RecordKind,
        record_index: u32,
        now: i64,
    ) -> (r: Result<(), PetPassportError>)
        requires
            old(self)@.wf(),
            now >= old(self)@.last_updated,
        ensures
            final(self)@.wf(),
            final(self)@.last_updated >= old(self)@.last_updated,
            match r {
                Ok(()) => {
                    &&& verifier_may_verify(caller)
                    &&& (record_kind == RecordKind::Vaccination || record_kind
                        == RecordKind::Health)
                    &&& (record_index as int) < old(self)@.log_len(record_kind)
                    &&& final(self)@ == (if record_kind == RecordKind::Vaccination {
                        spec_verify_vaccination(old(self)@, record_index as int, now as int)
                    } else {
                        spec_verify_health(old(self)@, record_index as int, now as int)
                    })
                },
                Err(PetPassportError::Unauthorized) => !verifier_may_verify(caller) && final(self)@ == old(self)@,
                Err(PetPassportError::InvalidRecordKind) => verifier_may_verify(caller)
                    && record_kind == RecordKind::Location && final(self)@ == old(self)@,
                Err(PetPassportError::IndexOutOfRange) => {
                    &&& verifier_may_verify(caller)
                    &&& (record_kind == RecordKind::Vaccination || record_kind
                        == RecordKind::Health)
                    &&& (record_index as int) >= old(self)@.log_len(record_kind)
                    &&& final(self)@ == old(self)@
                },
                Err(_) => false,
            },
    {
        if caller.id == 0 {
            return Err(PetPassportError::Unauthorized);
        }
        match record_kind {
            RecordKind::Vaccination => {
                let idx = record_index as usize;
                if idx >= self.vaccination_records.len() {
                    return Err(PetPassportError::IndexOutOfRange);
                }
                if !self.vaccination_records[idx].verified {
                    let ghost prior = self.vaccination_records@;
                    let entry = &mut self.vaccination_records[idx];
                    entry.verified = true;
                    self.last_updated = now;
                    proof {
                        lemma_vaccination_views_update(
                            prior,
                            idx as int,
                            self.vaccination_records@[idx as int],
                        );
                    }
                }
                Ok(())
            },
            RecordKind::Health => {
                let idx = record_index as usize;
                if idx >= self.health_records.len() {
                    return Err(PetPassportError::IndexOutOfRange);
                }
                if !self.health_records[idx].verified {
                    let ghost prior = self.health_records@;
                    let entry = &mut self.health_records[idx];
                    entry.verified = true;
                    self.last_updated = now;
                    proof {
                        lemma_health_views_update(
                            prior,
                            idx as int,
                            self.health_records@[idx as int],
                        );
                    }
                }
                Ok(())
            },
            RecordKind::Location => Err(PetPassportError::InvalidRecordKind),
        }
    }
}

} // verus!
