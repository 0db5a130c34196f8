//! The import pipeline: pagination decisions, the dedup gate, and the
//! category-by-category run that drives a job to its terminal state.
//!
//! Network I/O stays outside the library.  The fetch loop's decisions
//! (cursor advance, bounded retries, when to stop) are the
//! [`Paginator`]; the processing of fetched pages is
//! [`import_category`], a pure function of the pages handed in.

use vstd::prelude::*;
use vstd::string::StringExecFns;

use crate::category::GachaType;
use crate::decimal::{parse_i32_uid, spec_parse_i32, string_bytes};
use crate::error::ImportError;
use crate::job::ImportJob;
use crate::record::PullRecord;
use crate::source::{entry_key, entry_record, spec_entry_key, spec_entry_record, Catalog,
    SourceEntry, SourcePage};
use crate::store::{contains_key, spec_set_all, WishTable};
use crate::time::Region;

verus! {

/// Transient failures are retried this many times per page before the
/// import fails.
pub const RETRY_LIMIT: u8 = 3;

/// Seconds to wait before retrying a malformed page.
pub const RETRY_DELAY_SECS: u64 = 1;

/// The backward-pagination cursor and retry budget of one category
/// fetch.  The caller requests pages with the current `end_id`, hands
/// each outcome back, and stops when told to.
#[derive(Debug)]
pub struct Paginator {
    end_id: String,
    retries: u8,
}

impl Paginator {
    /// The cursor to send as `end_id` with the next request.
    pub closed spec fn spec_end_id(&self) -> Seq<char> {
        self.end_id@
    }

    /// Transient failures seen for the page currently requested.
    pub closed spec fn spec_retries(&self) -> u8 {
        self.retries
    }

    /// A fresh fetch starts at the sentinel cursor `"0"`.
    pub fn new() -> (p: Paginator)
        ensures
            p.spec_end_id() == "0"@,
            p.spec_retries() == 0,
    {
        Paginator { end_id: String::from_str("0"), retries: 0 }
    }

    pub fn end_id(&self) -> (s: &str)
        ensures
            s@ == self.spec_end_id(),
    {
        self.end_id.as_str()
    }

    /// Decision on a page that failed to parse: retry (after the fixed
    /// delay) while the budget lasts, else give the import up.
    pub fn on_malformed(&mut self) -> (retry: bool)
        ensures
            retry <==> old(self).spec_retries() < RETRY_LIMIT,
            retry ==> final(self).spec_retries() == old(self).spec_retries() + 1,
            !retry ==> final(self).spec_retries() == old(self).spec_retries(),
            final(self).spec_end_id() == old(self).spec_end_id(),
    {
        if self.retries < RETRY_LIMIT {
            self.retries = self.retries + 1;
            true
        } else {
            false
        }
    }

    /// Decision on a well-formed page: an empty page ends the
    /// category; otherwise the cursor moves to the last entry's id and
    /// the retry budget resets for the next page.
    pub fn on_page(&mut self, page: &SourcePage) -> (more: bool)
        ensures
            more <==> page.entries@.len() > 0,
            final(self).spec_retries() == 0,
            more ==> final(self).spec_end_id() == page.entries@[page.entries@.len()
                - 1].id@,
            !more ==> final(self).spec_end_id() == old(self).spec_end_id(),
    {
        self.retries = 0;
        if page.entries.len() == 0 {
            false
        } else {
            let last = &page.entries[page.entries.len() - 1];
            self.end_id = last.id.clone();
            true
        }
    }
}

/// What the discovery probe concludes from one category's first page:
/// keep probing on an empty page, a player id on a non-empty one, or a
/// parse error.
pub open spec fn spec_probe_page(page: SourcePage) -> Result<Option<i32>, ImportError> {
    if page.entries.len() == 0 {
        Ok(None)
    } else {
        match spec_parse_i32(string_bytes(page.entries[0].uid)) {
            Some(uid) => Ok(Some(uid)),
            None => Err(ImportError::BadPlayerId),
        }
    }
}

/// Probes one category's first page for the player id.  The caller
/// tries the categories in order until one yields `Some`; all-empty
/// probes mean the no-data terminal state, not an error.
pub fn probe_page(page: &SourcePage) -> (r: Result<Option<i32>, ImportError>)
    ensures
        r == spec_probe_page(*page),
{
    if page.entries.len() == 0 {
        Ok(None)
    } else {
        match parse_i32_uid(page.entries[0].uid.as_str()) {
            Some(uid) => Ok(Some(uid)),
            None => Err(ImportError::BadPlayerId),
        }
    }
}

/// The dedup gate's step on one entry: parse the key; a key already
/// stored is skipped; a new one must resolve and is appended to the
/// batch.
pub open spec fn spec_entry_step(
    rows: Seq<PullRecord>,
    batch: Seq<PullRecord>,
    cat: Catalog,
    region: Region,
    e: SourceEntry,
) -> Result<Seq<PullRecord>, ImportError> {
    match spec_entry_key(e) {
        Err(err) => Err(err),
        Ok(key) => {
            if contains_key(rows, key.0, key.1) {
                Ok(batch)
            } else {
                match spec_entry_record(e, cat, region, key.0, key.1) {
                    Err(err) => Err(err),
                    Ok(rec) => Ok(batch.push(rec)),
                }
            }
        },
    }
}

/// The dedup gate run across the tail of a page's entry list.
pub open spec fn spec_fold_entries(
    rows: Seq<PullRecord>,
    batch: Seq<PullRecord>,
    cat: Catalog,
    region: Region,
    entries: Seq<SourceEntry>,
    k: int,
) -> Result<Seq<PullRecord>, ImportError>
    decreases entries.len() - k,
{
    if k < 0 || k >= entries.len() {
        Ok(batch)
    } else {
        match spec_entry_step(rows, batch, cat, region, entries[k]) {
            Err(err) => Err(err),
            Ok(b2) => spec_fold_entries(rows, b2, cat, region, entries, k + 1),
        }
    }
}

/// The dedup gate run across the remaining pages; each page's region
/// tag fixes the timezone of its entries.
pub open spec fn spec_fold_pages(
    rows: Seq<PullRecord>,
    batch: Seq<PullRecord>,
    cat: Catalog,
    pages: Seq<SourcePage>,
    p: int,
) -> Result<Seq<PullRecord>, ImportError>
    decreases pages.len() - p,
{
    if p < 0 || p >= pages.len() {
        Ok(batch)
    } else {
        let region = Region::spec_from_tag(string_bytes(pages[p].region));
        match spec_fold_entries(rows, batch, cat, region, pages[p].entries@, 0) {
            Err(err) => Err(err),
            Ok(b2) => spec_fold_pages(rows, b2, cat, pages, p + 1),
        }
    }
}

/// What importing a category's pages into a table yields: the table
/// after the single bulk upsert, and the new-record count.
pub open spec fn spec_import_category(
    rows: Seq<PullRecord>,
    cat: Catalog,
    pages: Seq<SourcePage>,
) -> Result<(Seq<PullRecord>, int), ImportError> {
    match spec_fold_pages(rows, Seq::<PullRecord>::empty(), cat, pages, 0) {
        Err(err) => Err(err),
        Ok(batch) => Ok((spec_set_all(rows, batch), batch.len() as int)),
    }
}

/// Imports one category: every fetched page runs through the dedup
/// gate against the table as it stood before the run, new records
/// accumulate in one batch, and the batch is written with a single
/// bulk upsert.  On error the table is left untouched.
pub fn import_category(table: &mut WishTable, cat: &Catalog, pages: &Vec<SourcePage>) -> (r:
    Result<usize, ImportError>)
    requires
        old(table).wf(),
    ensures
        final(table).wf(),
        r matches Ok(n) ==> spec_import_category(old(table).spec_rows(), *cat, pages@)
            == Ok::<_, ImportError>((final(table).spec_rows(), n as int)),
        r matches Err(err) ==> spec_import_category(old(table).spec_rows(), *cat, pages@)
            == Err::<(Seq<PullRecord>, int), _>(err) && final(table).spec_rows() == old(
            table,
        ).spec_rows(),
{
    let ghost rows0 = table.spec_rows();
    let ghost target = spec_fold_pages(rows0, Seq::<PullRecord>::empty(), *cat, pages@, 0);
    let mut batch: Vec<PullRecord> = Vec::new();
    let mut p: usize = 0;
    while p < pages.len()
        invariant
            0 <= p <= pages@.len(),
            table.wf(),
            table.spec_rows() == rows0,
            spec_fold_pages(rows0, batch@, *cat, pages@, p as int) == target,
            target == spec_fold_pages(rows0, Seq::<PullRecord>::empty(), *cat, pages@, 0),
        decreases pages@.len() - p,
    {
        let page = &pages[p];
        let region = Region::from_tag(page.region.as_str());
        let ghost batch_at_page = batch@;
        let mut k: usize = 0;
        while k < page.entries.len()
            invariant
                0 <= k <= page.entries@.len(),
                table.wf(),
                table.spec_rows() == rows0,
                0 <= p < pages@.len(),
                *page == pages@[p as int],
                region == Region::spec_from_tag(string_bytes(pages@[p as int].region)),
                spec_fold_entries(rows0, batch@, *cat, region, page.entries@, k as int)
                    == spec_fold_entries(rows0, batch_at_page, *cat, region, page.entries@, 0),
                spec_fold_pages(rows0, batch_at_page, *cat, pages@, p as int) == target,
                target == spec_fold_pages(rows0, Seq::<PullRecord>::empty(), *cat, pages@, 0),
            decreases page.entries@.len() - k,
        {
            let e = &page.entries[k];
            match entry_key(e) {
                Err(err) => {
                    return Err(err);
                },
                Ok((id, uid)) => {
                    if !table.has_key(id, uid) {
                        match entry_record(e, cat, region, id, uid) {
                            Err(err) => {
                                return Err(err);
                            },
                            Ok(rec) => {
                                batch.push(rec);
                            },
                        }
                    }
                },
            }
            k = k + 1;
        }
        p = p + 1;
    }
    table.set_all(&batch);
    Ok(batch.len())
}

/// The per-category record tables of the persistence store.
#[derive(Debug)]
pub struct WishStore {
    pub beginner: WishTable,
    pub standard: WishTable,
    pub character: WishTable,
    pub weapon: WishTable,
    pub chronicled: WishTable,
}

impl WishStore {
    pub open spec fn wf(&self) -> bool {
        &&& self.beginner.wf()
        &&& self.standard.wf()
        &&& self.character.wf()
        &&& self.weapon.wf()
        &&& self.chronicled.wf()
    }

    pub fn new() -> (s: WishStore)
        ensures
            s.wf(),
            s.beginner.spec_rows() == Seq::<PullRecord>::empty(),
            s.standard.spec_rows() == Seq::<PullRecord>::empty(),
            s.character.spec_rows() == Seq::<PullRecord>::empty(),
            s.weapon.spec_rows() == Seq::<PullRecord>::empty(),
            s.chronicled.spec_rows() == Seq::<PullRecord>::empty(),
    {
        WishStore {
            beginner: WishTable::new(),
            standard: WishTable::new(),
            character: WishTable::new(),
            weapon: WishTable::new(),
            chronicled: WishTable::new(),
        }
    }

    pub open spec fn spec_table(&self, g: GachaType) -> WishTable {
        match g {
            GachaType::Beginner => self.beginner,
            GachaType::Standard => self.standard,
            GachaType::Character => self.character,
            GachaType::Weapon => self.weapon,
            GachaType::Chronicled => self.chronicled,
        }
    }

    pub fn table(&self, g: GachaType) -> (t: &WishTable)
        ensures
            *t == self.spec_table(g),
    {
        match g {
            GachaType::Beginner => &self.beginner,
            GachaType::Standard => &self.standard,
            GachaType::Character => &self.character,
            GachaType::Weapon => &self.weapon,
            GachaType::Chronicled => &self.chronicled,
        }
    }
}

/// The pages the source yielded for each category, as the fetch loop
/// collected them.
#[derive(Debug)]
pub struct SourceData {
    pub beginner: Vec<SourcePage>,
    pub standard: Vec<SourcePage>,
    pub character: Vec<SourcePage>,
    pub weapon: Vec<SourcePage>,
    pub chronicled: Vec<SourcePage>,
}

impl SourceData {
    pub open spec fn spec_pages(&self, g: GachaType) -> Seq<SourcePage> {
        match g {
            GachaType::Beginner => self.beginner@,
            GachaType::Standard => self.standard@,
            GachaType::Character => self.character@,
            GachaType::Weapon => self.weapon@,
            GachaType::Chronicled => self.chronicled@,
        }
    }
}

/// What one category's import yields when run against a store.
pub open spec fn spec_cat_result(
    store: WishStore,
    cat: Catalog,
    source: SourceData,
    g: GachaType,
) -> Result<(Seq<PullRecord>, int), ImportError> {
    spec_import_category(store.spec_table(g).spec_rows(), cat, source.spec_pages(g))
}

/// Drives one job's whole pipeline over already fetched source data:
/// each category in order through the dedup gate and its bulk upsert,
/// then the analytics transition, then the terminal state.  The first
/// failing category aborts the run; earlier categories stay committed,
/// later ones are left untouched.
pub fn run_import(
    job: &mut ImportJob,
    store: &mut WishStore,
    cat: &Catalog,
    source: &SourceData,
) -> (r: Result<(), ImportError>)
    requires
        old(job).spec_status() is Pending,
        forall|g: GachaType| old(job).spec_counter(g) == 0,
        old(store).wf(),
    ensures
        final(store).wf(),
        final(job).spec_uid() == old(job).spec_uid(),
        r is Ok <==> final(job).spec_status() is Finished,
        r is Err ==> final(job).spec_status() is Failed,
        ({
            let rb = spec_cat_result(*old(store), *cat, *source, GachaType::Beginner);
            let rs = spec_cat_result(*old(store), *cat, *source, GachaType::Standard);
            let rc = spec_cat_result(*old(store), *cat, *source, GachaType::Character);
            let rw = spec_cat_result(*old(store), *cat, *source, GachaType::Weapon);
            let rr = spec_cat_result(*old(store), *cat, *source, GachaType::Chronicled);
            let st0 = *old(store);
            let st1 = *final(store);
            let job1 = *final(job);
            match r {
                Ok(_) => {
                    &&& rb matches Ok(b) && st1.beginner.spec_rows() == b.0 && job1.spec_counter(
                        GachaType::Beginner,
                    ) == b.1
                    &&& rs matches Ok(s) && st1.standard.spec_rows() == s.0 && job1.spec_counter(
                        GachaType::Standard,
                    ) == s.1
                    &&& rc matches Ok(c) && st1.character.spec_rows() == c.0 && job1.spec_counter(
                        GachaType::Character,
                    ) == c.1
                    &&& rw matches Ok(w) && st1.weapon.spec_rows() == w.0 && job1.spec_counter(
                        GachaType::Weapon,
                    ) == w.1
                    &&& rr matches Ok(h) && st1.chronicled.spec_rows() == h.0 && job1.spec_counter(
                        GachaType::Chronicled,
                    ) == h.1
                },
                Err(err) => {
                    if rb is Err {
                        &&& rb->Err_0 == err
                        &&& st1.beginner.spec_rows() == st0.beginner.spec_rows()
                        &&& st1.standard.spec_rows() == st0.standard.spec_rows()
                        &&& st1.character.spec_rows() == st0.character.spec_rows()
                        &&& st1.weapon.spec_rows() == st0.weapon.spec_rows()
                        &&& st1.chronicled.spec_rows() == st0.chronicled.spec_rows()
                    } else if rs is Err {
                        &&& rs->Err_0 == err
                        &&& st1.beginner.spec_rows() == rb->Ok_0.0
                        &&& st1.standard.spec_rows() == st0.standard.spec_rows()
                        &&& st1.character.spec_rows() == st0.character.spec_rows()
                        &&& st1.weapon.spec_rows() == st0.weapon.spec_rows()
                        &&& st1.chronicled.spec_rows() == st0.chronicled.spec_rows()
                    } else if rc is Err {
                        &&& rc->Err_0 == err
                        &&& st1.beginner.spec_rows() == rb->Ok_0.0
                        &&& st1.standard.spec_rows() == rs->Ok_0.0
                        &&& st1.character.spec_rows() == st0.character.spec_rows()
                        &&& st1.weapon.spec_rows() == st0.weapon.spec_rows()
                        &&& st1.chronicled.spec_rows() == st0.chronicled.spec_rows()
                    } else if rw is Err {
                        &&& rw->Err_0 == err
                        &&& st1.beginner.spec_rows() == rb->Ok_0.0
                        &&& st1.standard.spec_rows() == rs->Ok_0.0
                        &&& st1.character.spec_rows() == rc->Ok_0.0
                        &&& st1.weapon.spec_rows() == st0.weapon.spec_rows()
                        &&& st1.chronicled.spec_rows() == st0.chronicled.spec_rows()
                    } else {
                        &&& rr == Err::<(Seq<PullRecord>, int), _>(err)
                        &&& st1.beginner.spec_rows() == rb->Ok_0.0
                        &&& st1.standard.spec_rows() == rs->Ok_0.0
                        &&& st1.character.spec_rows() == rc->Ok_0.0
                        &&& st1.weapon.spec_rows() == rw->Ok_0.0
                        &&& st1.chronicled.spec_rows() == st0.chronicled.spec_rows()
                    }
                },
            }
        }),
{
    job.start_category(GachaType::Beginner);
    match import_category(&mut store.beginner, cat, &source.beginner) {
        Ok(n) => {
            job.add_new(GachaType::Beginner, n);
        },
        Err(err) => {
            job.fail(err.message());
            return Err(err);
        },
    }
    job.start_category(GachaType::Standard);
    match import_category(&mut store.standard, cat, &source.standard) {
        Ok(n) => {
            job.add_new(GachaType::Standard, n);
        },
        Err(err) => {
            job.fail(err.message());
            return Err(err);
        },
    }
    job.start_category(GachaType::Character);
    match import_category(&mut store.character, cat, &source.character) {
        Ok(n) => {
            job.add_new(GachaType::Character, n);
        },
        Err(err) => {
            job.fail(err.message());
            return Err(err);
        },
    }
    job.start_category(GachaType::Weapon);
    match import_category(&mut store.weapon, cat, &source.weapon) {
        Ok(n) => {
            job.add_new(GachaType::Weapon, n);
        },
        Err(err) => {
            job.fail(err.message());
            return Err(err);
        },
    }
    job.start_category(GachaType::Chronicled);
    match import_category(&mut store.chronicled, cat, &source.chronicled) {
        Ok(n) => {
            job.add_new(GachaType::Chronicled, n);
        },
        Err(err) => {
            job.fail(err.message());
            return Err(err);
        },
    }
    job.begin_calculating();
    job.finish();
    Ok(())
}

/// A successful entry fold leaves every entry with a parseable key,
/// and every key either already stored or carried by the final batch.
proof fn lemma_fold_entries_facts(
    rows: Seq<PullRecord>,
    batch: Seq<PullRecord>,
    cat: Catalog,
    region: Region,
    entries: Seq<SourceEntry>,
    k: int,
    all: Seq<PullRecord>,
)
    requires
        0 <= k,
        spec_fold_entries(rows, batch, cat, region, entries, k) == Ok::<_, ImportError>(all),
    ensures
        forall|m: int|
            k <= m < entries.len() ==> (#[trigger] spec_entry_key(entries[m])) is Ok,
        forall|m: int|
            k <= m < entries.len() ==> contains_key(
                rows,
                (#[trigger] spec_entry_key(entries[m]))->Ok_0.0,
                spec_entry_key(entries[m])->Ok_0.1,
            ) || contains_key(
                all,
                spec_entry_key(entries[m])->Ok_0.0,
                spec_entry_key(entries[m])->Ok_0.1,
            ),
        forall|id: i64, uid: i32|
            contains_key(batch, id, uid) ==> contains_key(all, id, uid),
    decreases entries.len() - k,
{
    if k < entries.len() {
        let step = spec_entry_step(rows, batch, cat, region, entries[k]);
        let b2 = step->Ok_0;
        lemma_fold_entries_facts(rows, b2, cat, region, entries, k + 1, all);
        let key = spec_entry_key(entries[k])->Ok_0;
        if !contains_key(rows, key.0, key.1) {
            let rec = spec_entry_record(entries[k], cat, region, key.0, key.1)->Ok_0;
            assert(b2 == batch.push(rec));
            assert(rec.id == key.0 && rec.uid == key.1);
            assert(b2[b2.len() - 1] == rec);
            assert(contains_key(b2, key.0, key.1));
        }
        assert forall|id: i64, uid: i32| contains_key(batch, id, uid) implies contains_key(
            all,
            id,
            uid,
        ) by {
            let i = choose|i: int|
                0 <= i < batch.len() && (#[trigger] batch[i]).id == id && batch[i].uid == uid;
            assert(b2[i] == batch[i]);
            assert(contains_key(b2, id, uid));
        }
    }
}

/// The page-level version of the fact above.
proof fn lemma_fold_pages_facts(
    rows: Seq<PullRecord>,
    batch: Seq<PullRecord>,
    cat: Catalog,
    pages: Seq<SourcePage>,
    p: int,
    all: Seq<PullRecord>,
)
    requires
        0 <= p,
        spec_fold_pages(rows, batch, cat, pages, p) == Ok::<_, ImportError>(all),
    ensures
        forall|q: int, m: int|
            p <= q < pages.len() && 0 <= m < pages[q].entries@.len() ==> (
            #[trigger] spec_entry_key(pages[q].entries@[m])) is Ok && (contains_key(
                rows,
                spec_entry_key(pages[q].entries@[m])->Ok_0.0,
                spec_entry_key(pages[q].entries@[m])->Ok_0.1,
            ) || contains_key(
                all,
                spec_entry_key(pages[q].entries@[m])->Ok_0.0,
                spec_entry_key(pages[q].entries@[m])->Ok_0.1,
            )),
    decreases pages.len() - p,
{
    if p < pages.len() {
        let region = Region::spec_from_tag(string_bytes(pages[p].region));
        let b2 = spec_fold_entries(rows, batch, cat, region, pages[p].entries@, 0)->Ok_0;
        lemma_fold_pages_facts(rows, b2, cat, pages, p + 1, all);
        lemma_fold_entries_facts(rows, batch, cat, region, pages[p].entries@, 0, b2);
        lemma_fold_b2_sub(rows, b2, cat, pages, p + 1, all);
    }
}

/// The batch only grows across the page fold.
proof fn lemma_fold_b2_sub(
    rows: Seq<PullRecord>,
    batch: Seq<PullRecord>,
    cat: Catalog,
    pages: Seq<SourcePage>,
    p: int,
    all: Seq<PullRecord>,
)
    requires
        0 <= p,
        spec_fold_pages(rows, batch, cat, pages, p) == Ok::<_, ImportError>(all),
    ensures
        forall|id: i64, uid: i32|
            contains_key(batch, id, uid) ==> contains_key(all, id, uid),
    decreases pages.len() - p,
{
    if p < pages.len() {
        let region = Region::spec_from_tag(string_bytes(pages[p].region));
        let b2 = spec_fold_entries(rows, batch, cat, region, pages[p].entries@, 0)->Ok_0;
        lemma_fold_entries_facts(rows, batch, cat, region, pages[p].entries@, 0, b2);
        lemma_fold_b2_sub(rows, b2, cat, pages, p + 1, all);
    }
}

/// When every entry's key is already stored, the fold skips them all.
proof fn lemma_fold_entries_skip(
    rows: Seq<PullRecord>,
    batch: Seq<PullRecord>,
    cat: Catalog,
    region: Region,
    entries: Seq<SourceEntry>,
    k: int,
)
    requires
        0 <= k,
        forall|m: int|
            k <= m < entries.len() ==> (#[trigger] spec_entry_key(entries[m])) is Ok
                && contains_key(
                rows,
                spec_entry_key(entries[m])->Ok_0.0,
                spec_entry_key(entries[m])->Ok_0.1,
            ),
    ensures
        spec_fold_entries(rows, batch, cat, region, entries, k) == Ok::<_, ImportError>(batch),
    decreases entries.len() - k,
{
    if k < entries.len() {
        lemma_fold_entries_skip(rows, batch, cat, region, entries, k + 1);
    }
}

proof fn lemma_fold_pages_skip(
    rows: Seq<PullRecord>,
    batch: Seq<PullRecord>,
    cat: Catalog,
    pages: Seq<SourcePage>,
    p: int,
)
    requires
        0 <= p,
        forall|q: int, m: int|
            p <= q < pages.len() && 0 <= m < pages[q].entries@.len() ==> (
            #[trigger] spec_entry_key(pages[q].entries@[m])) is Ok && contains_key(
                rows,
                spec_entry_key(pages[q].entries@[m])->Ok_0.0,
                spec_entry_key(pages[q].entries@[m])->Ok_0.1,
            ),
    ensures
        spec_fold_pages(rows, batch, cat, pages, p) == Ok::<_, ImportError>(batch),
    decreases pages.len() - p,
{
    if p < pages.len() {
        let region = Region::spec_from_tag(string_bytes(pages[p].region));
        lemma_fold_entries_skip(rows, batch, cat, region, pages[p].entries@, 0);
        lemma_fold_pages_skip(rows, batch, cat, pages, p + 1);
    }
}

/// Importing the same source data twice is idempotent: after a
/// successful run, running the identical pages again stores nothing
/// new — the table is unchanged and the new-record count is zero.
pub proof fn lemma_import_idempotent(rows: Seq<PullRecord>, cat: Catalog, pages: Seq<SourcePage>)
    requires
        spec_import_category(rows, cat, pages) is Ok,
    ensures
        ({
            let rows1 = spec_import_category(rows, cat, pages)->Ok_0.0;
            spec_import_category(rows1, cat, pages) == Ok::<_, ImportError>((rows1, 0int))
        }),
{
    let batch = spec_fold_pages(rows, Seq::<PullRecord>::empty(), cat, pages, 0)->Ok_0;
    let rows1 = spec_set_all(rows, batch);
    lemma_fold_pages_facts(rows, Seq::<PullRecord>::empty(), cat, pages, 0, batch);
    assert forall|q: int, m: int|
        0 <= q < pages.len() && 0 <= m < pages[q].entries@.len() implies (
    #[trigger] spec_entry_key(pages[q].entries@[m])) is Ok && contains_key(
        rows1,
        spec_entry_key(pages[q].entries@[m])->Ok_0.0,
        spec_entry_key(pages[q].entries@[m])->Ok_0.1,
    ) by {
        let key = spec_entry_key(pages[q].entries@[m])->Ok_0;
        crate::store::lemma_set_all_contains(rows, batch, key.0, key.1);
    }
    lemma_fold_pages_skip(rows1, Seq::<PullRecord>::empty(), cat, pages, 0);
    assert(spec_set_all(rows1, Seq::<PullRecord>::empty()) == rows1);
}

} // verus!
