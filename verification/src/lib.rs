//! Verified core of a gacha pull-history importer and analytics engine.
//!
//! The library ingests a player's pull records from a game operator's
//! paginated API, deduplicates them against previously stored records,
//! classifies five-star pulls against time-bounded promotional banners,
//! and derives pity counters, soft-pity probability curves and
//! population percentiles.  Network and store I/O live outside the
//! library; everything here is plain data in, plain data out.

pub mod analytics;
pub mod banners;
pub mod category;
pub mod decimal;
pub mod error;
pub mod job;
pub mod pipeline;
pub mod record;
pub mod source;
pub mod source_url;
pub mod stats;
pub mod store;
pub mod time;
pub mod verifications;

pub use analytics::{annotate, curve_for, on_banner, probability_4, probability_5, pull_of_record,
    track_category, AnnotatedPull, Banner, CategoryTrack, PityCurve, PityState, Pull, WinType};
pub use banners::{BannerTable, DbBanner};
pub use category::GachaType;
pub use decimal::{parse_i32_uid, parse_i64_id, str_eq};
pub use error::ImportError;
pub use job::{ImportJob, JobManager, Status};
pub use pipeline::{import_category, probe_page, run_import, Paginator, SourceData, WishStore,
    RETRY_DELAY_SECS, RETRY_LIMIT};
pub use record::{ItemRef, PullRecord};
pub use source::{entry_key, entry_record, get_id_by_name, resolve_item, Catalog, CatalogRow,
    SourceEntry, SourcePage};
pub use source_url::{auth_params_from_url, filter_auth_params, operator_base, page_request_url};
pub use stats::{count_percentile, luck_metric, luck_of_pulls, rank_in, Percentile};
pub use store::WishTable;
pub use time::{normalize_to_utc, parse_source_time, source_time_to_utc, Region};
pub use verifications::{DbVerification, VerificationTable};
