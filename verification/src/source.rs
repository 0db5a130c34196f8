//! Source API pages and the translation of their entries into records.
//!
//! A page carries raw string fields; translation parses the ids,
//! resolves the item name against the character catalog first and the
//! weapon catalog second, disambiguates the item class with an id-range
//! heuristic when the type tag decides nothing, and normalizes the
//! local timestamp to UTC.

use vstd::prelude::*;
use vstd::string::StringSliceAdditionalSpecFns;

use crate::decimal::{
    parse_i32_uid, parse_i64_id, spec_parse_i32, spec_parse_i64, str_eq, string_bytes,
};
use crate::error::ImportError;
use crate::record::{ItemRef, PullRecord};
use crate::time::{source_time_to_utc, spec_utc_of, Region};

verus! {

/// One raw entry as the source API returns it.
#[derive(Debug)]
pub struct SourceEntry {
    /// Record id, a decimal string; doubles as the pagination cursor.
    pub id: String,
    /// Player id, a decimal string.
    pub uid: String,
    /// Item class tag, `"Character"` or `"Weapon"` when meaningful.
    pub item_type: String,
    /// Item display name, to be resolved against the catalogs.
    pub name: String,
    /// Local time, `YYYY-MM-DD HH:MM:SS` without a timezone.
    pub time: String,
}

/// One page of the source API's paginated response.
#[derive(Debug)]
pub struct SourcePage {
    /// Region tag of the account, fixing the UTC offset.
    pub region: String,
    pub entries: Vec<SourceEntry>,
}

/// One row of a name catalog.
#[derive(Debug)]
pub struct CatalogRow {
    pub name: String,
    pub id: i32,
}

/// The name tables the store supplies for item resolution.
#[derive(Debug)]
pub struct Catalog {
    pub characters: Vec<CatalogRow>,
    pub weapons: Vec<CatalogRow>,
}

/// First id whose row name matches, scanning from position `i`.
pub open spec fn spec_lookup_from(rows: Seq<CatalogRow>, name: Seq<u8>, i: int) -> Option<i32>
    decreases rows.len() - i,
{
    if i < 0 || i >= rows.len() {
        None
    } else if string_bytes(rows[i].name) == name {
        Some(rows[i].id)
    } else {
        spec_lookup_from(rows, name, i + 1)
    }
}

pub open spec fn spec_lookup(rows: Seq<CatalogRow>, name: Seq<u8>) -> Option<i32> {
    spec_lookup_from(rows, name, 0)
}

/// Looks an item display name up in one catalog.
pub fn get_id_by_name(rows: &Vec<CatalogRow>, name: &str) -> (r: Option<i32>)
    ensures
        r == spec_lookup(rows@, name.spec_bytes()),
{
    let mut i: usize = 0;
    while i < rows.len()
        invariant
            0 <= i <= rows@.len(),
            spec_lookup(rows@, name.spec_bytes()) == spec_lookup_from(
                rows@,
                name.spec_bytes(),
                i as int,
            ),
        decreases rows@.len() - i,
    {
        if str_eq(rows[i].name.as_str(), name) {
            return Some(rows[i].id);
        }
        i = i + 1;
    }
    None
}

/// The item class of a resolved id: the type tag decides where it can;
/// otherwise ids at or above the character id floor are characters.
pub open spec fn spec_item_kind(item_type: Seq<u8>, id: i32) -> ItemRef {
    if item_type == "Character".spec_bytes() {
        ItemRef::Character(id)
    } else if item_type == "Weapon".spec_bytes() {
        ItemRef::Weapon(id)
    } else if id >= 10000000 {
        ItemRef::Character(id)
    } else {
        ItemRef::Weapon(id)
    }
}

/// Resolution of a source entry's item: character catalog first, then
/// weapon catalog; `None` when the name is in neither.
pub open spec fn spec_resolve(cat: Catalog, item_type: Seq<u8>, name: Seq<u8>) -> Option<ItemRef> {
    let base = if spec_lookup(cat.characters@, name) is Some {
        spec_lookup(cat.characters@, name)
    } else {
        spec_lookup(cat.weapons@, name)
    };
    match base {
        Some(id) => Some(spec_item_kind(item_type, id)),
        None => None,
    }
}

/// Resolves an entry's item name and class.
pub fn resolve_item(cat: &Catalog, item_type: &str, name: &str) -> (r: Option<ItemRef>)
    ensures
        r == spec_resolve(*cat, item_type.spec_bytes(), name.spec_bytes()),
{
    let id_opt = match get_id_by_name(&cat.characters, name) {
        Some(id) => Some(id),
        None => get_id_by_name(&cat.weapons, name),
    };
    match id_opt {
        None => None,
        Some(id) => {
            if str_eq(item_type, "Character") {
                Some(ItemRef::Character(id))
            } else if str_eq(item_type, "Weapon") {
                Some(ItemRef::Weapon(id))
            } else if id >= 10000000 {
                Some(ItemRef::Character(id))
            } else {
                Some(ItemRef::Weapon(id))
            }
        },
    }
}

/// The `(record id, player id)` key of an entry, or the first parse
/// error in field order.
pub open spec fn spec_entry_key(e: SourceEntry) -> Result<(i64, i32), ImportError> {
    match spec_parse_i64(string_bytes(e.id)) {
        None => Err(ImportError::BadRecordId),
        Some(id) => match spec_parse_i32(string_bytes(e.uid)) {
            None => Err(ImportError::BadPlayerId),
            Some(uid) => Ok((id, uid)),
        },
    }
}

/// Parses the identifying fields of an entry.  This happens before the
/// store is consulted, so a malformed entry fails the import even when
/// the record is already stored.
pub fn entry_key(e: &SourceEntry) -> (r: Result<(i64, i32), ImportError>)
    ensures
        r == spec_entry_key(*e),
{
    let id = match parse_i64_id(e.id.as_str()) {
        Some(id) => id,
        None => {
            return Err(ImportError::BadRecordId);
        },
    };
    let uid = match parse_i32_uid(e.uid.as_str()) {
        Some(uid) => uid,
        None => {
            return Err(ImportError::BadPlayerId);
        },
    };
    Ok((id, uid))
}

/// The record a new entry becomes, or the first resolution error:
/// item resolution is consulted before the timestamp, as the source
/// pipeline does.
pub open spec fn spec_entry_record(
    e: SourceEntry,
    cat: Catalog,
    region: Region,
    id: i64,
    uid: i32,
) -> Result<PullRecord, ImportError> {
    match spec_resolve(cat, string_bytes(e.item_type), string_bytes(e.name)) {
        None => Err(ImportError::UnknownItem),
        Some(item) => match spec_utc_of(e.time@, region) {
            None => Err(ImportError::BadTimestamp),
            Some(t) => Ok(
                PullRecord { id, uid, item, timestamp: t as i64, official: true },
            ),
        },
    }
}

/// Builds the stored record for an entry that was not already stored.
pub fn entry_record(e: &SourceEntry, cat: &Catalog, region: Region, id: i64, uid: i32) -> (r:
    Result<PullRecord, ImportError>)
    ensures
        r == spec_entry_record(*e, *cat, region, id, uid),
{
    let item = match resolve_item(cat, e.item_type.as_str(), e.name.as_str()) {
        Some(item) => item,
        None => {
            return Err(ImportError::UnknownItem);
        },
    };
    let t = match source_time_to_utc(e.time.as_str(), region) {
        Ok(t) => t,
        Err(_) => {
            return Err(ImportError::BadTimestamp);
        },
    };
    Ok(PullRecord { id, uid, item, timestamp: t, official: true })
}

} // verus!
