//! In-memory model of one category's pull-record table.
//!
//! The table keeps its rows strictly sorted by `(id, uid)`, which is
//! also the uniqueness invariant the real store enforces on that key.
//! `set_all` is the bulk upsert the import pipeline issues once per
//! category: rows whose key is already present are left untouched, so
//! writing the same batch twice changes nothing.

use vstd::prelude::*;

use crate::record::PullRecord;

verus! {

/// Strict `(id, uid)` order.
pub open spec fn key_lt(a: PullRecord, b: PullRecord) -> bool {
    a.id < b.id || (a.id == b.id && a.uid < b.uid)
}

pub open spec fn sorted_by_key(rows: Seq<PullRecord>) -> bool {
    forall|i: int, j: int|
        0 <= i < j < rows.len() ==> key_lt(#[trigger] rows[i], #[trigger] rows[j])
}

/// Whether a row with the given key is present.
pub open spec fn contains_key(rows: Seq<PullRecord>, id: i64, uid: i32) -> bool {
    exists|i: int| 0 <= i < rows.len() && (#[trigger] rows[i]).id == id && rows[i].uid == uid
}

/// Index at which a new row with `rec`'s key belongs, scanning from `i`.
pub open spec fn insert_pos_from(rows: Seq<PullRecord>, rec: PullRecord, i: int) -> int
    decreases rows.len() - i,
{
    if i < 0 || i >= rows.len() {
        rows.len() as int
    } else if key_lt(rec, rows[i]) {
        i
    } else {
        insert_pos_from(rows, rec, i + 1)
    }
}

pub open spec fn spec_insert(rows: Seq<PullRecord>, rec: PullRecord) -> Seq<PullRecord> {
    rows.insert(insert_pos_from(rows, rec, 0), rec)
}

/// One row of a bulk write: inserted in key position when new, skipped
/// when the key is already stored.
pub open spec fn spec_upsert(rows: Seq<PullRecord>, rec: PullRecord) -> Seq<PullRecord> {
    if contains_key(rows, rec.id, rec.uid) {
        rows
    } else {
        spec_insert(rows, rec)
    }
}

/// A whole batch applied left to right.
pub open spec fn spec_set_all(rows: Seq<PullRecord>, batch: Seq<PullRecord>) -> Seq<PullRecord>
    decreases batch.len(),
{
    if batch.len() == 0 {
        rows
    } else {
        spec_set_all(spec_upsert(rows, batch[0]), batch.drop_first())
    }
}

proof fn lemma_insert_pos_range(rows: Seq<PullRecord>, rec: PullRecord, i: int)
    requires
        0 <= i <= rows.len(),
    ensures
        i <= insert_pos_from(rows, rec, i) <= rows.len(),
    decreases rows.len() - i,
{
    if i < rows.len() && !key_lt(rec, rows[i]) {
        lemma_insert_pos_range(rows, rec, i + 1);
    }
}

/// Membership after an insert: exactly the old rows plus the new one.
proof fn lemma_insert_contains(rows: Seq<PullRecord>, rec: PullRecord, id: i64, uid: i32)
    ensures
        contains_key(spec_insert(rows, rec), id, uid) <==> contains_key(rows, id, uid) || (rec.id
            == id && rec.uid == uid),
{
    lemma_insert_pos_range(rows, rec, 0);
    let p = insert_pos_from(rows, rec, 0);
    let out = rows.insert(p, rec);
    if contains_key(rows, id, uid) {
        let i = choose|i: int|
            0 <= i < rows.len() && (#[trigger] rows[i]).id == id && rows[i].uid == uid;
        if i < p {
            assert(out[i] == rows[i]);
        } else {
            assert(out[i + 1] == rows[i]);
        }
    }
    if rec.id == id && rec.uid == uid {
        assert(out[p] == rec);
    }
    if contains_key(out, id, uid) {
        let i = choose|i: int|
            0 <= i < out.len() && (#[trigger] out[i]).id == id && out[i].uid == uid;
        if i < p {
            assert(rows[i] == out[i]);
        } else if i == p {
        } else {
            assert(rows[i - 1] == out[i]);
        }
    }
}

proof fn lemma_upsert_contains(rows: Seq<PullRecord>, rec: PullRecord, id: i64, uid: i32)
    ensures
        contains_key(spec_upsert(rows, rec), id, uid) <==> contains_key(rows, id, uid) || (rec.id
            == id && rec.uid == uid),
{
    if contains_key(rows, rec.id, rec.uid) {
        if rec.id == id && rec.uid == uid {
            assert(contains_key(rows, id, uid));
        }
    } else {
        lemma_insert_contains(rows, rec, id, uid);
    }
}

/// Membership after a whole batch.
pub proof fn lemma_set_all_contains(
    rows: Seq<PullRecord>,
    batch: Seq<PullRecord>,
    id: i64,
    uid: i32,
)
    ensures
        contains_key(spec_set_all(rows, batch), id, uid) <==> contains_key(rows, id, uid) ||exists|
            k: int,
        | 0 <= k < batch.len() && (#[trigger] batch[k]).id == id && batch[k].uid == uid,
    decreases batch.len(),
{
    if batch.len() > 0 {
        lemma_upsert_contains(rows, batch[0], id, uid);
        lemma_set_all_contains(spec_upsert(rows, batch[0]), batch.drop_first(), id, uid);
        let tail = batch.drop_first();
        if exists|k: int| 0 <= k < tail.len() && (#[trigger] tail[k]).id == id && tail[k].uid
            == uid {
            let k = choose|k: int|
                0 <= k < tail.len() && (#[trigger] tail[k]).id == id && tail[k].uid == uid;
            assert(batch[k + 1] == tail[k]);
        }
        if exists|k: int| 0 <= k < batch.len() && (#[trigger] batch[k]).id == id && batch[k].uid
            == uid {
            let k = choose|k: int|
                0 <= k < batch.len() && (#[trigger] batch[k]).id == id && batch[k].uid == uid;
            if k > 0 {
                assert(tail[k - 1] == batch[k]);
            }
        }
    }
}

/// Folding one more batch row on the right.
pub proof fn lemma_set_all_push(rows: Seq<PullRecord>, batch: Seq<PullRecord>, rec: PullRecord)
    ensures
        spec_set_all(rows, batch.push(rec)) == spec_upsert(spec_set_all(rows, batch), rec),
    decreases batch.len(),
{
    if batch.len() == 0 {
        assert(batch.push(rec)[0] == rec);
        assert(batch.push(rec).drop_first() =~= Seq::<PullRecord>::empty());
        assert(spec_set_all(rows, batch.push(rec)) == spec_set_all(
            spec_upsert(rows, rec),
            Seq::<PullRecord>::empty(),
        ));
        assert(spec_set_all(spec_upsert(rows, rec), Seq::<PullRecord>::empty()) == spec_upsert(
            rows,
            rec,
        ));
        assert(spec_set_all(rows, batch) == rows);
    } else {
        assert(batch.push(rec)[0] == batch[0]);
        assert(batch.push(rec).drop_first() =~= batch.drop_first().push(rec));
        lemma_set_all_push(spec_upsert(rows, batch[0]), batch.drop_first(), rec);
    }
}

/// One category's record table, strictly sorted by `(id, uid)`.
#[derive(Debug)]
pub struct WishTable {
    rows: Vec<PullRecord>,
}

impl WishTable {
    /// The stored rows, ascending by `(id, uid)`.
    pub closed spec fn spec_rows(&self) -> Seq<PullRecord> {
        self.rows@
    }

    pub open spec fn wf(&self) -> bool {
        sorted_by_key(self.spec_rows())
    }

    pub fn new() -> (t: WishTable)
        ensures
            t.wf(),
            t.spec_rows() == Seq::<PullRecord>::empty(),
    {
        WishTable { rows: Vec::new() }
    }

    pub fn len(&self) -> (n: usize)
        ensures
            n == self.spec_rows().len(),
    {
        self.rows.len()
    }

    /// The dedup gate's existence check on the `(id, uid)` key.
    pub fn has_key(&self, id: i64, uid: i32) -> (b: bool)
        ensures
            b == contains_key(self.spec_rows(), id, uid),
    {
        let mut i: usize = 0;
        while i < self.rows.len()
            invariant
                0 <= i <= self.rows@.len(),
                forall|j: int|
                    0 <= j < i ==> !((#[trigger] self.rows@[j]).id == id && self.rows@[j].uid
                        == uid),
            decreases self.rows@.len() - i,
        {
            if self.rows[i].id == id && self.rows[i].uid == uid {
                return true;
            }
            i = i + 1;
        }
        false
    }

    /// Inserts a row with a fresh key at its sorted position.
    fn insert_sorted(&mut self, rec: PullRecord)
        requires
            old(self).wf(),
            !contains_key(old(self).spec_rows(), rec.id, rec.uid),
        ensures
            final(self).wf(),
            final(self).spec_rows() == spec_insert(old(self).spec_rows(), rec),
    {
        let ghost rows0 = self.rows@;
        let mut p: usize = 0;
        while p < self.rows.len() && !(rec.id < self.rows[p].id || (rec.id == self.rows[p].id
            && rec.uid < self.rows[p].uid))
            invariant
                0 <= p <= rows0.len(),
                self.rows@ == rows0,
                insert_pos_from(rows0, rec, 0) == insert_pos_from(rows0, rec, p as int),
                forall|j: int| 0 <= j < p ==> !key_lt(rec, #[trigger] rows0[j]),
            decreases rows0.len() - p,
        {
            p = p + 1;
        }
        proof {
            assert(insert_pos_from(rows0, rec, p as int) == p as int);
        }
        self.rows.insert(p, rec);
        proof {
            let out = rows0.insert(p as int, rec);
            assert forall|i: int, j: int| 0 <= i < j < out.len() implies key_lt(
                #[trigger] out[i],
                #[trigger] out[j],
            ) by {
                let ghost pi = p as int;
                // Rows before the insertion point are at most rec; rows
                // after are greater.  A row equal in key to rec cannot
                // exist, so the order stays strict.
                if i < pi && j < pi {
                    assert(out[i] == rows0[i] && out[j] == rows0[j]);
                } else if i < pi && j == pi {
                    assert(out[i] == rows0[i] && out[j] == rec);
                    assert(!key_lt(rec, rows0[i]));
                    assert(!(rows0[i].id == rec.id && rows0[i].uid == rec.uid));
                } else if i < pi && j > pi {
                    assert(out[i] == rows0[i] && out[j] == rows0[j - 1]);
                    if pi < rows0.len() {
                        assert(key_lt(rec, rows0[pi]));
                    }
                    if i < j - 1 {
                        assert(key_lt(rows0[i], rows0[j - 1]));
                    } else {
                        // j - 1 == i == pi - 1 < pi, impossible since j > pi
                        assert(j - 1 >= pi);
                        assert(!key_lt(rec, rows0[i]));
                        assert(!(rows0[i].id == rec.id && rows0[i].uid == rec.uid));
                        assert(key_lt(rows0[i], rec));
                        assert(key_lt(rec, rows0[j - 1]));
                    }
                } else if i == pi && j > pi {
                    assert(out[i] == rec && out[j] == rows0[j - 1]);
                    assert(j - 1 >= pi);
                    assert(key_lt(rec, rows0[pi]));
                    if j - 1 > pi {
                        assert(key_lt(rows0[pi], rows0[j - 1]));
                    }
                } else {
                    assert(out[i] == rows0[i - 1] && out[j] == rows0[j - 1]);
                    assert(key_lt(rows0[i - 1], rows0[j - 1]));
                }
            }
        }
    }

    /// The bulk upsert the pipeline issues once per category: each
    /// batch row is inserted unless its key is already stored.
    pub fn set_all(&mut self, batch: &Vec<PullRecord>)
        requires
            old(self).wf(),
        ensures
            final(self).wf(),
            final(self).spec_rows() == spec_set_all(old(self).spec_rows(), batch@),
    {
        let ghost rows0 = self.rows@;
        let mut k: usize = 0;
        while k < batch.len()
            invariant
                0 <= k <= batch@.len(),
                self.wf(),
                self.spec_rows() == spec_set_all(rows0, batch@.take(k as int)),
            decreases batch@.len() - k,
        {
            let rec = batch[k];
            proof {
                lemma_set_all_push(rows0, batch@.take(k as int), rec);
                assert(batch@.take(k as int).push(rec) =~= batch@.take(k as int + 1));
            }
            if !self.has_key(rec.id, rec.uid) {
                self.insert_sorted(rec);
            }
            k = k + 1;
        }
        proof {
            assert(batch@.take(k as int) =~= batch@);
        }
    }

    /// Rows of one player, ascending by `(id, uid)` like the table.
    pub fn get_by_uid(&self, uid: i32) -> (r: Vec<PullRecord>)
        requires
            self.wf(),
        ensures
            r@ == self.spec_rows().filter(|p: PullRecord| p.uid == uid),
            sorted_by_key(r@),
    {
        let mut out: Vec<PullRecord> = Vec::new();
        let mut i: usize = 0;
        proof {
            reveal_with_fuel(Seq::filter, 1);
            assert(self.spec_rows().take(0) =~= Seq::<PullRecord>::empty());
            assert(out@ =~= self.spec_rows().take(0).filter(|p: PullRecord| p.uid == uid));
        }
        while i < self.rows.len()
            invariant
                0 <= i <= self.rows@.len(),
                out@ == self.rows@.take(i as int).filter(|p: PullRecord| p.uid == uid),
            decreases self.rows@.len() - i,
        {
            proof {
                reveal_with_fuel(Seq::filter, 1);
                let pre = self.rows@.take(i as int + 1);
                assert(pre.drop_last() =~= self.rows@.take(i as int));
                assert(pre.last() == self.rows@[i as int]);
            }
            if self.rows[i].uid == uid {
                out.push(self.rows[i]);
            }
            i = i + 1;
        }
        proof {
            assert(self.rows@.take(i as int) =~= self.rows@);
            lemma_filter_keeps_order(self.rows@, |p: PullRecord| p.uid == uid);
        }
        out
    }

    /// How many rows one player has.
    pub fn get_count_by_uid(&self, uid: i32) -> (n: usize)
        requires
            self.wf(),
        ensures
            n == self.spec_rows().filter(|p: PullRecord| p.uid == uid).len(),
    {
        let rows = self.get_by_uid(uid);
        rows.len()
    }

    /// Drops a player's manually entered rows, keeping the imported
    /// (official) ones.
    pub fn delete_unofficial(&mut self, uid: i32)
        requires
            old(self).wf(),
        ensures
            final(self).wf(),
            final(self).spec_rows() == old(self).spec_rows().filter(
                |p: PullRecord| !(p.uid == uid && !p.official),
            ),
    {
        let ghost rows0 = self.rows@;
        let mut out: Vec<PullRecord> = Vec::new();
        let mut i: usize = 0;
        proof {
            reveal_with_fuel(Seq::filter, 1);
            assert(rows0.take(0) =~= Seq::<PullRecord>::empty());
            assert(out@ =~= rows0.take(0).filter(|p: PullRecord| !(p.uid == uid && !p.official)));
        }
        while i < self.rows.len()
            invariant
                0 <= i <= rows0.len(),
                self.rows@ == rows0,
                out@ == rows0.take(i as int).filter(|p: PullRecord| !(p.uid == uid && !p.official)),
            decreases rows0.len() - i,
        {
            proof {
                reveal_with_fuel(Seq::filter, 1);
                let pre = rows0.take(i as int + 1);
                assert(pre.drop_last() =~= rows0.take(i as int));
                assert(pre.last() == rows0[i as int]);
            }
            let rec = self.rows[i];
            if !(rec.uid == uid && !rec.official) {
                out.push(rec);
            }
            i = i + 1;
        }
        proof {
            assert(rows0.take(i as int) =~= rows0);
            lemma_filter_keeps_order(rows0, |p: PullRecord| !(p.uid == uid && !p.official));
        }
        self.rows = out;
    }
}

/// Filtering a strictly ordered row sequence keeps it strictly ordered.
proof fn lemma_filter_keeps_order(rows: Seq<PullRecord>, pred: spec_fn(PullRecord) -> bool)
    requires
        sorted_by_key(rows),
    ensures
        sorted_by_key(rows.filter(pred)),
        forall|k: int|
            0 <= k < rows.filter(pred).len() ==> rows.contains(#[trigger] rows.filter(pred)[k]),
    decreases rows.len(),
{
    reveal_with_fuel(Seq::filter, 1);
    if rows.len() > 0 {
        let head = rows.drop_last();
        assert forall|i: int, j: int| 0 <= i < j < head.len() implies key_lt(
            #[trigger] head[i],
            #[trigger] head[j],
        ) by {
            assert(head[i] == rows[i] && head[j] == rows[j]);
        }
        lemma_filter_keeps_order(head, pred);
        let sub = head.filter(pred);
        assert forall|k: int| 0 <= k < sub.len() implies rows.contains(#[trigger] sub[k]) by {
            assert(head.contains(sub[k]));
            let w = choose|w: int| 0 <= w < head.len() && head[w] == sub[k];
            assert(rows[w] == sub[k]);
        }
        if pred(rows.last()) {
            let out = sub.push(rows.last());
            assert(out == rows.filter(pred));
            assert forall|i: int, j: int| 0 <= i < j < out.len() implies key_lt(
                #[trigger] out[i],
                #[trigger] out[j],
            ) by {
                if j < sub.len() {
                    assert(out[i] == sub[i] && out[j] == sub[j]);
                } else {
                    assert(out[j] == rows.last());
                    assert(out[i] == sub[i]);
                    assert(head.contains(sub[i]));
                    let w = choose|w: int| 0 <= w < head.len() && head[w] == sub[i];
                    assert(rows[w] == sub[i]);
                    assert(key_lt(rows[w], rows[rows.len() - 1]));
                }
            }
            assert forall|k: int| 0 <= k < out.len() implies rows.contains(#[trigger] out[k]) by {
                if k < sub.len() {
                    assert(rows.contains(sub[k]));
                } else {
                    assert(out[k] == rows[rows.len() - 1]);
                }
            }
        }
    }
}

} // verus!
