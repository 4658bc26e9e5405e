//! A pet "passport": a per-animal identity record with three bounded,
//! append-only history logs (vaccinations, health events, locations),
//! ownership transfer, and third-party verification of individual entries.
//!
//! The store keeps one passport per identifier and exposes create, read,
//! append, verify and transfer operations. Every operation is all-or-nothing:
//! it either performs exactly the documented mutation or fails with a
//! [`records::PetPassportError`] and leaves the state untouched.
//!
//! The caller's authenticated identity and the current time are passed
//! explicitly to every operation rather than read from ambient state.
//! Mutating operations assume a monotone time source — the supplied time is
//! not before the passport's `last_updated` — which is what keeps
//! `last_updated` non-decreasing across a passport's life.

pub mod laws;
pub mod passport;
pub mod records;
pub mod store;

use vstd::prelude::*;

verus! {

/// Maximum number of entries each of the three history logs may hold.
/// Fixed at passport creation and never resized.
pub const MAX_LOG_ENTRIES: usize = 10;

} // verus!
