//! Errors of the import pipeline.

use vstd::prelude::*;
use vstd::string::StringExecFns;

verus! {

/// Why translating a source entry failed.  Any of these aborts the
/// whole import for the player, matching the source's all-or-nothing
/// error policy per category.
#[derive(Clone, Copy, Debug, PartialEq, Eq, Structural)]
pub enum ImportError {
    /// The record id field is not a decimal number in range.
    BadRecordId,
    /// The player id field is not a decimal number in range.
    BadPlayerId,
    /// The item name is in neither the character nor the weapon catalog.
    UnknownItem,
    /// The local time field does not parse under the source format.
    BadTimestamp,
}

impl ImportError {
    /// Human-readable failure reason, surfaced on a failed job's status.
    pub fn message(&self) -> (m: String)
        ensures
            *self is BadRecordId ==> m@ == "invalid record id"@,
            *self is BadPlayerId ==> m@ == "invalid player id"@,
            *self is UnknownItem ==> m@ == "item name not found"@,
            *self is BadTimestamp ==> m@ == "invalid timestamp"@,
    {
        match self {
            ImportError::BadRecordId => String::from_str("invalid record id"),
            ImportError::BadPlayerId => String::from_str("invalid player id"),
            ImportError::UnknownItem => String::from_str("item name not found"),
            ImportError::BadTimestamp => String::from_str("invalid timestamp"),
        }
    }
}

} // verus!
