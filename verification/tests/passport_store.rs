use pet_passport::passport::PetData;
use pet_passport::records::{Identity, PetPassportError, RecordKind};
use pet_passport::store::PassportStore;
use pet_passport::MAX_LOG_ENTRIES;

fn ident(id: u64) -> Identity {
    Identity { id }
}

fn create_rex(store: &mut PassportStore, id: u64, owner: Identity, now: i64) {
    let r = store.create_pet_passport(
        id,
        String::from("Rex"),
        String::from("Dog"),
        String::from("Labrador"),
        0,
        owner,
        now,
    );
    assert!(r.is_ok());
}

fn vaccination_fields(p: &PetData) -> Vec<(String, i64, i64, String, bool)> {
    p.vaccination_records
        .iter()
        .map(|r| {
            (
                r.vaccine_name.clone(),
                r.date_administered,
                r.next_due_date,
                r.veterinarian.clone(),
                r.verified,
            )
        })
        .collect()
}

#[test]
fn create_then_read_returns_empty_logs() {
    let mut store = PassportStore::new();
    let a = ident(1);
    create_rex(&mut store, 7, a, 5);
    let p = store.get_pet_data(7).unwrap();
    assert_eq!(p.name, "Rex");
    assert_eq!(p.species, "Dog");
    assert_eq!(p.breed, "Labrador");
    assert_eq!(p.birth_date, 0);
    assert_eq!(p.owner, a);
    assert_eq!(p.last_updated, 5);
    assert!(p.vaccination_records.is_empty());
    assert!(p.health_records.is_empty());
    assert!(p.location_history.is_empty());
}

#[test]
fn create_returns_snapshot_of_created_passport() {
    let mut store = PassportStore::new();
    let a = ident(1);
    let p = store
        .create_pet_passport(
            3,
            String::from("Misty"),
            String::from("Cat"),
            String::from("Siamese"),
            -100,
            a,
            20,
        )
        .unwrap();
    assert_eq!(p.name, "Misty");
    assert_eq!(p.birth_date, -100);
    assert_eq!(p.owner, a);
    assert_eq!(p.last_updated, 20);
    assert!(p.vaccination_records.is_empty());
}

#[test]
fn create_existing_fails_already_exists_and_preserves_passport() {
    let mut store = PassportStore::new();
    let a = ident(1);
    let b = ident(2);
    create_rex(&mut store, 7, a, 5);
    let r = store.create_pet_passport(
        7,
        String::from("Impostor"),
        String::from("Cat"),
        String::from("Sphynx"),
        99,
        b,
        6,
    );
    assert_eq!(r.err(), Some(PetPassportError::AlreadyExists));
    let p = store.get_pet_data(7).unwrap();
    assert_eq!(p.name, "Rex");
    assert_eq!(p.owner, a);
    assert_eq!(p.last_updated, 5);
}

#[test]
fn read_missing_fails_not_found() {
    let store = PassportStore::new();
    match store.get_pet_data(42) {
        Err(PetPassportError::NotFound) => {}
        other => panic!("expected NotFound, got {:?}", other.map(|p| p.name.clone())),
    }
}

#[test]
fn append_to_missing_passport_fails_not_found() {
    let mut store = PassportStore::new();
    let a = ident(1);
    let r = store.add_location_record(9, a, String::from("Berlin"), 50, String::from("moved"), 50);
    assert_eq!(r, Err(PetPassportError::NotFound));
}

#[test]
fn append_vaccination_at_capacity_fails_capacity_exceeded() {
    let mut store = PassportStore::new();
    let a = ident(1);
    create_rex(&mut store, 7, a, 0);
    for i in 0..MAX_LOG_ENTRIES as i64 {
        let r = store.add_vaccination_record(
            7,
            a,
            String::from("Rabies"),
            100 + i,
            200 + i,
            String::from("DrSmith"),
            1 + i,
        );
        assert!(r.is_ok());
    }
    let r = store.add_vaccination_record(
        7,
        a,
        String::from("Rabies"),
        500,
        600,
        String::from("DrSmith"),
        100,
    );
    assert_eq!(r, Err(PetPassportError::CapacityExceeded));
    let p = store.get_pet_data(7).unwrap();
    assert_eq!(p.vaccination_records.len(), MAX_LOG_ENTRIES);
}

#[test]
fn append_location_at_capacity_fails_capacity_exceeded() {
    let mut store = PassportStore::new();
    let a = ident(1);
    create_rex(&mut store, 7, a, 0);
    for i in 0..MAX_LOG_ENTRIES as i64 {
        let r = store.add_location_record(
            7,
            a,
            String::from("Paris"),
            10 + i,
            String::from("travel"),
            1 + i,
        );
        assert!(r.is_ok());
    }
    let r = store.add_location_record(7, a, String::from("Rome"), 99, String::from("travel"), 99);
    assert_eq!(r, Err(PetPassportError::CapacityExceeded));
    let p = store.get_pet_data(7).unwrap();
    assert_eq!(p.location_history.len(), MAX_LOG_ENTRIES);
}

#[test]
fn append_by_non_owner_fails_unauthorized_without_state_change() {
    let mut store = PassportStore::new();
    let a = ident(1);
    let b = ident(2);
    create_rex(&mut store, 7, a, 5);
    let r = store.add_health_record(
        7,
        b,
        String::from("checkup"),
        100,
        String::from("all well"),
        String::from("DrSmith"),
        6,
    );
    assert_eq!(r, Err(PetPassportError::Unauthorized));
    let p = store.get_pet_data(7).unwrap();
    assert!(p.health_records.is_empty());
    assert_eq!(p.last_updated, 5);
}

#[test]
fn append_health_records_entry_fields() {
    let mut store = PassportStore::new();
    let a = ident(1);
    create_rex(&mut store, 7, a, 5);
    let r = store.add_health_record(
        7,
        a,
        String::from("surgery"),
        300,
        String::from("spayed"),
        String::from("DrJones"),
        8,
    );
    assert!(r.is_ok());
    let p = store.get_pet_data(7).unwrap();
    assert_eq!(p.health_records.len(), 1);
    let entry = &p.health_records[0];
    assert_eq!(entry.record_type, "surgery");
    assert_eq!(entry.date, 300);
    assert_eq!(entry.description, "spayed");
    assert_eq!(entry.veterinarian, "DrJones");
    assert!(!entry.verified);
    assert_eq!(p.last_updated, 8);
}

#[test]
fn verify_health_entry_sets_flag() {
    let mut store = PassportStore::new();
    let a = ident(1);
    let b = ident(2);
    create_rex(&mut store, 7, a, 5);
    store
        .add_health_record(
            7,
            a,
            String::from("checkup"),
            100,
            String::from("fine"),
            String::from("DrSmith"),
            6,
        )
        .unwrap();
    let r = store.verify_record(7, b, RecordKind::Health, 0, 9);
    assert!(r.is_ok());
    let p = store.get_pet_data(7).unwrap();
    assert!(p.health_records[0].verified);
    assert_eq!(p.last_updated, 9);
}

#[test]
fn verify_already_verified_is_idempotent() {
    let mut store = PassportStore::new();
    let a = ident(1);
    let b = ident(2);
    create_rex(&mut store, 7, a, 5);
    store
        .add_vaccination_record(
            7,
            a,
            String::from("Rabies"),
            100,
            200,
            String::from("DrSmith"),
            6,
        )
        .unwrap();
    store.verify_record(7, b, RecordKind::Vaccination, 0, 9).unwrap();
    let before = {
        let p = store.get_pet_data(7).unwrap();
        (p.last_updated, p.owner, vaccination_fields(p))
    };
    let r = store.verify_record(7, b, RecordKind::Vaccination, 0, 50);
    assert!(r.is_ok());
    let p = store.get_pet_data(7).unwrap();
    assert_eq!(before.0, p.last_updated);
    assert_eq!(before.1, p.owner);
    assert_eq!(before.2, vaccination_fields(p));
}

#[test]
fn verify_index_past_end_fails_index_out_of_range() {
    let mut store = PassportStore::new();
    let a = ident(1);
    let b = ident(2);
    create_rex(&mut store, 7, a, 5);
    store
        .add_vaccination_record(
            7,
            a,
            String::from("Rabies"),
            100,
            200,
            String::from("DrSmith"),
            6,
        )
        .unwrap();
    let r = store.verify_record(7, b, RecordKind::Vaccination, 1, 9);
    assert_eq!(r, Err(PetPassportError::IndexOutOfRange));
    let r = store.verify_record(7, b, RecordKind::Health, 0, 9);
    assert_eq!(r, Err(PetPassportError::IndexOutOfRange));
}

#[test]
fn verify_location_kind_fails_invalid_record_kind() {
    let mut store = PassportStore::new();
    let a = ident(1);
    let b = ident(2);
    create_rex(&mut store, 7, a, 5);
    store
        .add_location_record(7, a, String::from("Berlin"), 50, String::from("moved"), 6)
        .unwrap();
    let r = store.verify_record(7, b, RecordKind::Location, 0, 9);
    assert_eq!(r, Err(PetPassportError::InvalidRecordKind));
}

#[test]
fn verify_by_absent_identity_fails_unauthorized() {
    let mut store = PassportStore::new();
    let a = ident(1);
    create_rex(&mut store, 7, a, 5);
    store
        .add_vaccination_record(
            7,
            a,
            String::from("Rabies"),
            100,
            200,
            String::from("DrSmith"),
            6,
        )
        .unwrap();
    let r = store.verify_record(7, Identity { id: 0 }, RecordKind::Vaccination, 0, 9);
    assert_eq!(r, Err(PetPassportError::Unauthorized));
    let p = store.get_pet_data(7).unwrap();
    assert!(!p.vaccination_records[0].verified);
}

#[test]
fn verify_on_missing_passport_fails_not_found() {
    let mut store = PassportStore::new();
    let b = ident(2);
    let r = store.verify_record(42, b, RecordKind::Vaccination, 0, 9);
    assert_eq!(r, Err(PetPassportError::NotFound));
}

#[test]
fn transfer_owner_locks_out_old_owner() {
    let mut store = PassportStore::new();
    let a = ident(1);
    let c = ident(3);
    create_rex(&mut store, 7, a, 5);
    let r = store.update_owner(7, a, c, 6);
    assert!(r.is_ok());
    let p = store.get_pet_data(7).unwrap();
    assert_eq!(p.owner, c);
    assert_eq!(p.last_updated, 6);
    let r = store.add_vaccination_record(
        7,
        a,
        String::from("Rabies"),
        100,
        200,
        String::from("DrSmith"),
        7,
    );
    assert_eq!(r, Err(PetPassportError::Unauthorized));
}

#[test]
fn transfer_owner_by_non_owner_fails_unauthorized() {
    let mut store = PassportStore::new();
    let a = ident(1);
    let b = ident(2);
    let c = ident(3);
    create_rex(&mut store, 7, a, 5);
    let r = store.update_owner(7, b, c, 6);
    assert_eq!(r, Err(PetPassportError::Unauthorized));
    let p = store.get_pet_data(7).unwrap();
    assert_eq!(p.owner, a);
}

#[test]
fn transfer_owner_on_missing_passport_fails_not_found() {
    let mut store = PassportStore::new();
    let a = ident(1);
    let c = ident(3);
    let r = store.update_owner(42, a, c, 6);
    assert_eq!(r, Err(PetPassportError::NotFound));
}

#[test]
fn capacity_remaining_counts_down() {
    let p = PetData::new(
        String::from("Rex"),
        String::from("Dog"),
        String::from("Labrador"),
        0,
        ident(1),
        5,
    );
    assert_eq!(p.capacity_remaining(RecordKind::Vaccination), MAX_LOG_ENTRIES);
    assert_eq!(p.capacity_remaining(RecordKind::Health), MAX_LOG_ENTRIES);
    assert_eq!(p.capacity_remaining(RecordKind::Location), MAX_LOG_ENTRIES);
    let mut p = p;
    p.add_vaccination_record(
        ident(1),
        String::from("Rabies"),
        100,
        200,
        String::from("DrSmith"),
        6,
    )
    .unwrap();
    assert_eq!(p.capacity_remaining(RecordKind::Vaccination), MAX_LOG_ENTRIES - 1);
    assert_eq!(p.capacity_remaining(RecordKind::Health), MAX_LOG_ENTRIES);
}

#[test]
fn scenario_rex_vaccinations_to_capacity() {
    let mut store = PassportStore::new();
    let a = ident(1);
    let b = ident(2);
    create_rex(&mut store, 1, a, 0);
    let r = store.add_vaccination_record(
        1,
        a,
        String::from("Rabies"),
        100,
        200,
        String::from("DrSmith"),
        1,
    );
    assert!(r.is_ok());
    {
        let p = store.get_pet_data(1).unwrap();
        assert_eq!(p.vaccination_records.len(), 1);
        assert!(!p.vaccination_records[0].verified);
    }
    let r = store.verify_record(1, b, RecordKind::Vaccination, 0, 2);
    assert!(r.is_ok());
    {
        let p = store.get_pet_data(1).unwrap();
        assert!(p.vaccination_records[0].verified);
    }
    let mut appended: i64 = 1;
    while appended < 10 {
        let r = store.add_vaccination_record(
            1,
            a,
            String::from("Rabies"),
            100 + appended,
            200 + appended,
            String::from("DrSmith"),
            3 + appended,
        );
        assert!(r.is_ok());
        appended += 1;
    }
    {
        let p = store.get_pet_data(1).unwrap();
        assert_eq!(p.vaccination_records.len(), 10);
    }
    let r = store.add_vaccination_record(
        1,
        a,
        String::from("Rabies"),
        999,
        1099,
        String::from("DrSmith"),
        100,
    );
    assert_eq!(r, Err(PetPassportError::CapacityExceeded));
}

#[test]
fn scenario_transfer_then_location_appends() {
    let mut store = PassportStore::new();
    let a = ident(1);
    let c = ident(3);
    create_rex(&mut store, 1, a, 0);
    let r = store.update_owner(1, a, c, 1);
    assert!(r.is_ok());
    let r = store.add_location_record(1, a, String::from("Berlin"), 50, String::from("moved"), 2);
    assert_eq!(r, Err(PetPassportError::Unauthorized));
    let r = store.add_location_record(1, c, String::from("Berlin"), 50, String::from("moved"), 2);
    assert!(r.is_ok());
    let p = store.get_pet_data(1).unwrap();
    assert_eq!(p.location_history.len(), 1);
    assert_eq!(p.location_history[0].location, "Berlin");
    assert_eq!(p.location_history[0].timestamp, 50);
    assert_eq!(p.location_history[0].event_type, "moved");
}
