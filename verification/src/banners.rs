//! In-memory model of the promotional-banner catalog.
//!
//! Banner rows are read-only to the import core and come from an
//! external catalog; the table is keyed by banner id, and each row
//! features exactly one item over a half-open time interval.  The
//! analytics engine consumes the rows through [`BannerTable::to_banners`].

use vstd::prelude::*;

use crate::analytics::Banner;
use crate::record::ItemRef;

verus! {

/// One catalog row: a time-bounded promotion of one item.
#[derive(Clone, Copy, Debug, PartialEq, Eq, Structural)]
pub struct DbBanner {
    pub id: i32,
    /// Featured item; a character or a weapon, never both.
    pub item: ItemRef,
    /// Start of the promotion, inclusive, UTC seconds.
    pub start: i64,
    /// End of the promotion, exclusive, UTC seconds.
    pub end: i64,
}

/// First position holding banner `id`, scanning from `i`.
pub open spec fn spec_find_banner(rows: Seq<DbBanner>, id: i32, i: int) -> Option<int>
    decreases rows.len() - i,
{
    if i < 0 || i >= rows.len() {
        None
    } else if rows[i].id == id {
        Some(i)
    } else {
        spec_find_banner(rows, id, i + 1)
    }
}

/// The banner catalog, at most one row per banner id.
#[derive(Debug)]
pub struct BannerTable {
    rows: Vec<DbBanner>,
}

impl BannerTable {
    pub closed spec fn spec_rows(&self) -> Seq<DbBanner> {
        self.rows@
    }

    pub open spec fn wf(&self) -> bool {
        forall|i: int, j: int|
            0 <= i < j < self.spec_rows().len() ==> (#[trigger] self.spec_rows()[i]).id != (
            #[trigger] self.spec_rows()[j]).id
    }

    pub fn new() -> (t: BannerTable)
        ensures
            t.wf(),
            t.spec_rows() == Seq::<DbBanner>::empty(),
    {
        BannerTable { rows: Vec::new() }
    }

    fn find_banner(&self, id: i32) -> (r: Option<usize>)
        ensures
            r matches Some(i) ==> spec_find_banner(self.spec_rows(), id, 0) == Some(i as int) && i
                < self.spec_rows().len() && self.spec_rows()[i as int].id == id,
            r is None ==> spec_find_banner(self.spec_rows(), id, 0) is None,
    {
        let mut i: usize = 0;
        while i < self.rows.len()
            invariant
                0 <= i <= self.rows@.len(),
                spec_find_banner(self.rows@, id, 0) == spec_find_banner(self.rows@, id, i as int),
            decreases self.rows@.len() - i,
        {
            if self.rows[i].id == id {
                return Some(i);
            }
            i = i + 1;
        }
        None
    }

    /// Upserts a catalog row, keyed by banner id.
    pub fn set(&mut self, banner: DbBanner)
        requires
            old(self).wf(),
        ensures
            final(self).wf(),
            final(self).spec_rows() == (match spec_find_banner(
                old(self).spec_rows(),
                banner.id,
                0,
            ) {
                Some(i) => old(self).spec_rows().update(i, banner),
                None => old(self).spec_rows().push(banner),
            }),
    {
        let ghost rows0 = self.rows@;
        match self.find_banner(banner.id) {
            Some(i) => {
                let slot = &mut self.rows[i];
                *slot = banner;
                proof {
                    assert forall|a: int, b: int|
                        0 <= a < b < self.rows@.len() implies (#[trigger] self.rows@[a]).id != (
                    #[trigger] self.rows@[b]).id by {
                        assert(rows0[i as int].id == banner.id);
                        if a != i {
                            assert(self.rows@[a] == rows0[a]);
                        }
                        if b != i {
                            assert(self.rows@[b] == rows0[b]);
                        }
                    }
                }
            },
            None => {
                self.rows.push(banner);
                proof {
                    lemma_find_banner_none(rows0, banner.id, 0);
                    assert forall|a: int, b: int|
                        0 <= a < b < self.rows@.len() implies (#[trigger] self.rows@[a]).id != (
                    #[trigger] self.rows@[b]).id by {
                        if b < rows0.len() {
                            assert(self.rows@[a] == rows0[a] && self.rows@[b] == rows0[b]);
                        } else {
                            assert(self.rows@[a] == rows0[a]);
                            assert(rows0[a].id != banner.id);
                        }
                    }
                }
            },
        }
    }

    /// Every catalog row, in table order.
    pub fn get_all(&self) -> (r: Vec<DbBanner>)
        ensures
            r@ == self.spec_rows(),
    {
        let mut out: Vec<DbBanner> = Vec::new();
        let mut i: usize = 0;
        while i < self.rows.len()
            invariant
                0 <= i <= self.rows@.len(),
                out@ =~= self.rows@.take(i as int),
            decreases self.rows@.len() - i,
        {
            out.push(self.rows[i]);
            i = i + 1;
        }
        proof {
            assert(self.rows@.take(i as int) =~= self.rows@);
        }
        out
    }

    /// The row with one banner id, if any.
    pub fn get_by_id(&self, id: i32) -> (r: Option<DbBanner>)
        ensures
            r matches Some(b) ==> spec_find_banner(self.spec_rows(), id, 0) matches Some(i) && b
                == self.spec_rows()[i],
            r is None ==> spec_find_banner(self.spec_rows(), id, 0) is None,
    {
        match self.find_banner(id) {
            Some(i) => Some(self.rows[i]),
            None => None,
        }
    }

    /// Drops the row with one banner id, if any.
    pub fn delete_by_id(&mut self, id: i32)
        requires
            old(self).wf(),
        ensures
            final(self).wf(),
            final(self).spec_rows() == (match spec_find_banner(old(self).spec_rows(), id, 0) {
                Some(i) => old(self).spec_rows().remove(i),
                None => old(self).spec_rows(),
            }),
    {
        let ghost rows0 = self.rows@;
        match self.find_banner(id) {
            Some(i) => {
                self.rows.remove(i);
                proof {
                    assert forall|a: int, b: int|
                        0 <= a < b < self.rows@.len() implies (#[trigger] self.rows@[a]).id != (
                    #[trigger] self.rows@[b]).id by {
                        let a0: int = if a < i {
                            a
                        } else {
                            a + 1
                        };
                        let b0: int = if b < i {
                            b
                        } else {
                            b + 1
                        };
                        assert(self.rows@[a] == rows0[a0]);
                        assert(self.rows@[b] == rows0[b0]);
                    }
                }
            },
            None => {},
        }
    }

    /// The catalog as the analytics engine consumes it: one interval
    /// per row, keyed by the featured item's id.
    pub fn to_banners(&self) -> (r: Vec<Banner>)
        ensures
            r@.len() == self.spec_rows().len(),
            forall|i: int|
                0 <= i < r@.len() ==> #[trigger] r@[i] == (Banner {
                    item_id: self.spec_rows()[i].item.spec_item_id(),
                    start: self.spec_rows()[i].start,
                    end: self.spec_rows()[i].end,
                }),
    {
        let mut out: Vec<Banner> = Vec::new();
        let mut i: usize = 0;
        while i < self.rows.len()
            invariant
                0 <= i <= self.rows@.len(),
                out@.len() == i,
                forall|k: int|
                    0 <= k < i ==> #[trigger] out@[k] == (Banner {
                        item_id: self.rows@[k].item.spec_item_id(),
                        start: self.rows@[k].start,
                        end: self.rows@[k].end,
                    }),
            decreases self.rows@.len() - i,
        {
            let row = self.rows[i];
            out.push(Banner { item_id: row.item.item_id(), start: row.start, end: row.end });
            i = i + 1;
        }
        out
    }
}

/// When nothing was found, no row holds the id.
proof fn lemma_find_banner_none(rows: Seq<DbBanner>, id: i32, i: int)
    requires
        0 <= i,
        spec_find_banner(rows, id, i) is None,
    ensures
        forall|k: int| i <= k < rows.len() ==> (#[trigger] rows[k]).id != id,
    decreases rows.len() - i,
{
    if 0 <= i < rows.len() {
        lemma_find_banner_none(rows, id, i + 1);
    }
}

} // verus!
