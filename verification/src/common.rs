//! Identifiers and processing status shared across the wire types.

use vstd::prelude::*;

verus! {

/// Relies on `uuid::Uuid` only as an opaque 128-bit identifier; the
/// library never reads or constructs one.
#[verifier::external_type_specification]
#[verifier::external_body]
pub struct ExUuid(uuid::Uuid);

/// Relies on `uuid::Uuid::clone`: `Uuid` is a plain copyable value, so
/// its clone is the value itself.
pub assume_specification[ <uuid::Uuid as Clone>::clone ](u: &uuid::Uuid) -> (r: uuid::Uuid)
    ensures
        r == *u,
;

/// A point in time, as milliseconds since the Unix epoch. The wire form
/// carries a full calendar timestamp; this library only stores it, so it
/// keeps the plain value and leaves calendar arithmetic to its callers.
pub type Timestamp = i64;

pub type ProjectId = uuid::Uuid;

pub type JobId = uuid::Uuid;

pub type UserId = uuid::Uuid;

pub type Key = uuid::Uuid;

pub type PackageId = String;

/// Did the processing of the package or job complete successfully.
#[derive(PartialEq, Eq, Structural, PartialOrd, Ord, Hash, Copy, Clone, Debug)]
pub enum Status {
    Complete,
    Incomplete,
}

} // verus!
