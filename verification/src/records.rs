//! The record types held by a passport, the principal identity, the record
//! kinds addressable by `verify`, and the error taxonomy shared by every
//! operation.

use vstd::prelude::*;

verus! {

/// An authenticated principal. Operations are attributed to exactly one
/// identity; ownership and verification policy are equality / presence
/// checks on this value.
#[derive(Clone, Copy, PartialEq, Eq, Structural, Debug)]
pub struct Identity {
    pub id: u64,
}

impl Identity {
    /// True when this is a real principal rather than the degenerate
    /// "no identity" value.
    pub open spec fn is_present(self) -> bool {
        self.id != 0
    }
}

/// Which of a passport's logs an entry is addressed in.
/// Location entries carry no verification flag, so `verify` rejects
/// [`RecordKind::Location`] with [`PetPassportError::InvalidRecordKind`].
#[derive(Clone, Copy, PartialEq, Eq, Structural, Debug)]
pub enum RecordKind {
    Vaccination,
    Health,
    Location,
}

/// Everything that can go wrong with a store operation. All failures are
/// terminal and leave the store untouched.
#[derive(Clone, Copy, PartialEq, Eq, Structural, Debug)]
pub enum PetPassportError {
    /// `create` was asked for an identifier that already has a passport.
    AlreadyExists,
    /// No passport exists under the given identifier.
    NotFound,
    /// The caller does not satisfy the policy governing the operation.
    Unauthorized,
    /// The target log already holds its maximum number of entries.
    CapacityExceeded,
    /// `verify` addressed an entry at or past the end of the target log.
    IndexOutOfRange,
    /// `verify` addressed a kind of record that carries no verification flag.
    InvalidRecordKind,
}

/// One vaccination event. Immutable once appended, except for the one-way
/// `verified` transition.
pub struct VaccinationRecord {
    pub vaccine_name: String,
    pub date_administered: i64,
    pub next_due_date: i64,
    pub veterinarian: String,
    pub verified: bool,
}

/// Mathematical model of a [`VaccinationRecord`].
pub ghost struct VaccinationRecordView {
    pub vaccine_name: Seq<char>,
    pub date_administered: int,
    pub next_due_date: int,
    pub veterinarian: Seq<char>,
    pub verified: bool,
}

impl View for VaccinationRecord {
    type V = VaccinationRecordView;

    open spec fn view(&self) -> VaccinationRecordView {
        VaccinationRecordView {
            vaccine_name: self.vaccine_name@,
            date_administered: self.date_administered as int,
            next_due_date: self.next_due_date as int,
            veterinarian: self.veterinarian@,
            verified: self.verified,
        }
    }
}

/// One health event. Immutable once appended, except for the one-way
/// `verified` transition.
pub struct HealthRecord {
    pub record_type: String,
    pub date: i64,
    pub description: String,
    pub veterinarian: String,
    pub verified: bool,
}

/// Mathematical model of a [`HealthRecord`].
pub ghost struct HealthRecordView {
    pub record_type: Seq<char>,
    pub date: int,
    pub description: Seq<char>,
    pub veterinarian: Seq<char>,
    pub verified: bool,
}

impl View for HealthRecord {
    type V = HealthRecordView;

    open spec fn view(&self) -> HealthRecordView {
        HealthRecordView {
            record_type: self.record_type@,
            date: self.date as int,
            description: self.description@,
            veterinarian: self.veterinarian@,
            verified: self.verified,
        }
    }
}

/// One location event. Entirely immutable once appended; carries no
/// verification flag.
pub struct LocationRecord {
    pub location: String,
    pub timestamp: i64,
    pub event_type: String,
}

/// Mathematical model of a [`LocationRecord`].
pub ghost struct LocationRecordView {
    pub location: Seq<char>,
    pub timestamp: int,
    pub event_type: Seq<char>,
}

impl View for LocationRecord {
    type V = LocationRecordView;

    open spec fn view(&self) -> LocationRecordView {
        LocationRecordView {
            location: self.location@,
            timestamp: self.timestamp as int,
            event_type: self.event_type@,
        }
    }
}

} // verus!
