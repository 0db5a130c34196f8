//! Stored pull records.

use vstd::prelude::*;

verus! {

/// The item a pull yielded: either a character or a weapon, never both
/// and never neither.
#[derive(Clone, Copy, Debug, PartialEq, Eq, Structural)]
pub enum ItemRef {
    Character(i32),
    Weapon(i32),
}

impl ItemRef {
    pub open spec fn spec_item_id(&self) -> i32 {
        match self {
            ItemRef::Character(id) => *id,
            ItemRef::Weapon(id) => *id,
        }
    }

    pub fn item_id(&self) -> (id: i32)
        ensures
            id == self.spec_item_id(),
    {
        match self {
            ItemRef::Character(id) => *id,
            ItemRef::Weapon(id) => *id,
        }
    }
}

/// One imported pull.  `(id, uid)` identifies a record uniquely; once
/// stored, a record never changes.
#[derive(Clone, Copy, Debug, PartialEq, Eq, Structural)]
pub struct PullRecord {
    /// Source record id, also the pagination cursor key.
    pub id: i64,
    /// Player id the record belongs to.
    pub uid: i32,
    /// Resolved item.
    pub item: ItemRef,
    /// UTC timestamp, seconds since the Unix epoch.
    pub timestamp: i64,
    /// True for records obtained through this importer.
    pub official: bool,
}

} // verus!
