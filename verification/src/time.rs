//! Timezone normalization of source timestamps.
//!
//! The source API reports each record's time in a fixed local format
//! without a timezone; the page's region tag selects one of a few fixed
//! UTC offsets, which is subtracted to obtain the stored UTC timestamp.

use vstd::prelude::*;
use vstd::string::StringSliceAdditionalSpecFns;

use crate::decimal::str_eq;

verus! {

/// Every timestamp chrono can represent stays well inside this bound
/// (its year range is roughly +/-262000), so offset arithmetic on a
/// parsed timestamp can never overflow an `i64`.
pub const NAIVE_EPOCH_BOUND: i64 = 9_000_000_000_000;

/// The region buckets that determine a record's fixed UTC offset.
#[derive(Clone, Copy, Debug, PartialEq, Eq, Structural)]
pub enum Region {
    NA,
    EU,
    Asia,
    CN,
}

impl Region {
    pub open spec fn spec_offset_hours(&self) -> int {
        match self {
            Region::NA => -5,
            Region::EU => 1,
            Region::Asia => 8,
            Region::CN => 8,
        }
    }

    /// Hours the source's local clock runs ahead of UTC.
    pub fn offset_hours(&self) -> (h: i64)
        ensures
            h == self.spec_offset_hours(),
    {
        match self {
            Region::NA => -5,
            Region::EU => 1,
            Region::Asia => 8,
            Region::CN => 8,
        }
    }

    pub open spec fn spec_from_tag(tag: Seq<u8>) -> Region {
        if tag == "os_usa".spec_bytes() {
            Region::NA
        } else if tag == "os_eu".spec_bytes() {
            Region::EU
        } else if tag == "os_asia".spec_bytes() {
            Region::Asia
        } else {
            Region::CN
        }
    }

    /// Maps a source region tag to its offset bucket; unknown tags fall
    /// back to the default (+8h) bucket.
    pub fn from_tag(tag: &str) -> (r: Region)
        ensures
            r == Self::spec_from_tag(tag.spec_bytes()),
    {
        if str_eq(tag, "os_usa") {
            Region::NA
        } else if str_eq(tag, "os_eu") {
            Region::EU
        } else if str_eq(tag, "os_asia") {
            Region::Asia
        } else {
            Region::CN
        }
    }
}

/// Seconds since the Unix epoch of the civil time written in `s` under
/// format `fmt`, when `s` parses; the result depends on the two strings
/// alone.
pub uninterp spec fn naive_epoch_of(s: Seq<char>, fmt: Seq<char>) -> Option<int>;

/// Relies on `chrono::NaiveDateTime::parse_from_str` and
/// `chrono::DateTime::timestamp`: parsing a civil time string under a
/// fixed format is a function of the two strings alone, and the result,
/// taken as UTC, is its second count since the Unix epoch.  chrono's
/// representable years stay within roughly +/-262000, which bounds the
/// second count.
#[verifier::external_body]
fn parse_civil_epoch(s: &str, fmt: &str) -> (r: Result<i64, String>)
    ensures
        r matches Ok(v) ==> naive_epoch_of(s@, fmt@) == Some(v as int)
            && -NAIVE_EPOCH_BOUND <= v <= NAIVE_EPOCH_BOUND,
        r is Err <==> naive_epoch_of(s@, fmt@) is None,
{
    match chrono::NaiveDateTime::parse_from_str(s, fmt) {
        Ok(t) => Ok(t.and_utc().timestamp()),
        Err(e) => Err(format!("{e}")),
    }
}

/// The fixed format source records use for their local time.
pub open spec fn source_time_format() -> Seq<char> {
    "%Y-%m-%d %H:%M:%S"@
}

/// Parses a source record's local time field.
pub fn parse_source_time(s: &str) -> (r: Result<i64, String>)
    ensures
        r matches Ok(v) ==> naive_epoch_of(s@, source_time_format()) == Some(v as int)
            && -NAIVE_EPOCH_BOUND <= v <= NAIVE_EPOCH_BOUND,
        r is Err <==> naive_epoch_of(s@, source_time_format()) is None,
{
    parse_civil_epoch(s, "%Y-%m-%d %H:%M:%S")
}

/// Subtracts the region's fixed offset, turning a local second count
/// into UTC.
pub fn normalize_to_utc(local_epoch: i64, region: Region) -> (t: i64)
    requires
        -NAIVE_EPOCH_BOUND <= local_epoch <= NAIVE_EPOCH_BOUND,
    ensures
        t == local_epoch - region.spec_offset_hours() * 3600,
{
    local_epoch - region.offset_hours() * 3600
}

/// What a record's stored UTC timestamp is, given its local time string
/// and region bucket: defined exactly when the time string parses.
pub open spec fn spec_utc_of(time: Seq<char>, region: Region) -> Option<int> {
    match naive_epoch_of(time, source_time_format()) {
        Some(e) => Some(e - region.spec_offset_hours() * 3600),
        None => None,
    }
}

/// Parses a source record's local time and normalizes it to UTC.
pub fn source_time_to_utc(s: &str, region: Region) -> (r: Result<i64, String>)
    ensures
        r matches Ok(v) ==> spec_utc_of(s@, region) == Some(v as int),
        r is Err <==> spec_utc_of(s@, region) is None,
{
    match parse_source_time(s) {
        Ok(e) => Ok(normalize_to_utc(e, region)),
        Err(m) => Err(m),
    }
}

} // verus!
