//! In-memory model of the account-verification table.
//!
//! A verification row links a player id to the username that claims
//! it, with the one-time code the player must present.  The store
//! keys the table by player id: writing a verification for an already
//! claimed id replaces that row, matching the upsert the real store
//! performs.

use vstd::prelude::*;
use vstd::string::StringSliceAdditionalSpecFns;

use crate::decimal::{str_eq, string_bytes};

verus! {

/// One verification row.
#[derive(Debug)]
pub struct DbVerification {
    pub uid: i64,
    pub username: String,
    pub otp: String,
}

impl Clone for DbVerification {
    fn clone(&self) -> (r: Self)
        ensures
            r == *self,
    {
        DbVerification {
            uid: self.uid,
            username: self.username.clone(),
            otp: self.otp.clone(),
        }
    }
}

/// First position holding `uid`, scanning from `i`.
pub open spec fn spec_find_uid(rows: Seq<DbVerification>, uid: i64, i: int) -> Option<int>
    decreases rows.len() - i,
{
    if i < 0 || i >= rows.len() {
        None
    } else if rows[i].uid == uid {
        Some(i)
    } else {
        spec_find_uid(rows, uid, i + 1)
    }
}

/// The verification table, at most one row per player id.
#[derive(Debug)]
pub struct VerificationTable {
    rows: Vec<DbVerification>,
}

impl VerificationTable {
    pub closed spec fn spec_rows(&self) -> Seq<DbVerification> {
        self.rows@
    }

    pub open spec fn wf(&self) -> bool {
        forall|i: int, j: int|
            0 <= i < j < self.spec_rows().len() ==> (#[trigger] self.spec_rows()[i]).uid != (
            #[trigger] self.spec_rows()[j]).uid
    }

    pub fn new() -> (t: VerificationTable)
        ensures
            t.wf(),
            t.spec_rows() == Seq::<DbVerification>::empty(),
    {
        VerificationTable { rows: Vec::new() }
    }

    fn find_uid(&self, uid: i64) -> (r: Option<usize>)
        ensures
            r matches Some(i) ==> spec_find_uid(self.spec_rows(), uid, 0) == Some(i as int) && i
                < self.spec_rows().len() && self.spec_rows()[i as int].uid == uid,
            r is None ==> spec_find_uid(self.spec_rows(), uid, 0) is None,
    {
        let mut i: usize = 0;
        while i < self.rows.len()
            invariant
                0 <= i <= self.rows@.len(),
                spec_find_uid(self.rows@, uid, 0) == spec_find_uid(self.rows@, uid, i as int),
            decreases self.rows@.len() - i,
        {
            if self.rows[i].uid == uid {
                return Some(i);
            }
            i = i + 1;
        }
        None
    }

    /// Upserts a verification row, keyed by player id: an existing
    /// claim on the same id is replaced, username and code included.
    pub fn set_verification(&mut self, v: DbVerification)
        requires
            old(self).wf(),
        ensures
            final(self).wf(),
            final(self).spec_rows() == (match spec_find_uid(old(self).spec_rows(), v.uid, 0) {
                Some(i) => old(self).spec_rows().update(i, v),
                None => old(self).spec_rows().push(v),
            }),
    {
        let ghost rows0 = self.rows@;
        match self.find_uid(v.uid) {
            Some(i) => {
                let ghost vuid = v.uid;
                let slot = &mut self.rows[i];
                *slot = v;
                proof {
                    assert forall|a: int, b: int|
                        0 <= a < b < self.rows@.len() implies (#[trigger] self.rows@[a]).uid != (
                    #[trigger] self.rows@[b]).uid by {
                        assert(rows0[i as int].uid == vuid);
                        if a != i {
                            assert(self.rows@[a] == rows0[a]);
                        }
                        if b != i {
                            assert(self.rows@[b] == rows0[b]);
                        }
                    }
                }
            },
            None => {
                let ghost vuid = v.uid;
                self.rows.push(v);
                proof {
                    lemma_find_uid_none(rows0, vuid, 0);
                    assert forall|a: int, b: int|
                        0 <= a < b < self.rows@.len() implies (#[trigger] self.rows@[a]).uid != (
                    #[trigger] self.rows@[b]).uid by {
                        if b < rows0.len() {
                            assert(self.rows@[a] == rows0[a] && self.rows@[b] == rows0[b]);
                        } else {
                            assert(self.rows@[a] == rows0[a]);
                            assert(rows0[a].uid != vuid);
                        }
                    }
                }
            },
        }
    }

    /// Every verification row, in table order.
    pub fn get_verifications(&self) -> (r: Vec<DbVerification>)
        ensures
            r@ == self.spec_rows(),
    {
        let mut out: Vec<DbVerification> = Vec::new();
        let mut i: usize = 0;
        while i < self.rows.len()
            invariant
                0 <= i <= self.rows@.len(),
                out@ =~= self.rows@.take(i as int),
            decreases self.rows@.len() - i,
        {
            out.push(self.rows[i].clone());
            i = i + 1;
        }
        proof {
            assert(self.rows@.take(i as int) =~= self.rows@);
        }
        out
    }

    /// The rows one username has claimed, in table order.
    pub fn get_verifications_by_username(&self, username: &str) -> (r: Vec<DbVerification>)
        ensures
            r@ == self.spec_rows().filter(
                |v: DbVerification| string_bytes(v.username) == username.spec_bytes(),
            ),
    {
        let mut out: Vec<DbVerification> = Vec::new();
        let mut i: usize = 0;
        proof {
            reveal_with_fuel(Seq::filter, 1);
            assert(self.rows@.take(0) =~= Seq::<DbVerification>::empty());
            assert(out@ =~= self.rows@.take(0).filter(
                |v: DbVerification| string_bytes(v.username) == username.spec_bytes(),
            ));
        }
        while i < self.rows.len()
            invariant
                0 <= i <= self.rows@.len(),
                out@ == self.rows@.take(i as int).filter(
                    |v: DbVerification| string_bytes(v.username) == username.spec_bytes(),
                ),
            decreases self.rows@.len() - i,
        {
            proof {
                reveal_with_fuel(Seq::filter, 1);
                let pre = self.rows@.take(i as int + 1);
                assert(pre.drop_last() =~= self.rows@.take(i as int));
                assert(pre.last() == self.rows@[i as int]);
            }
            if str_eq(self.rows[i].username.as_str(), username) {
                out.push(self.rows[i].clone());
            }
            i = i + 1;
        }
        proof {
            assert(self.rows@.take(i as int) =~= self.rows@);
        }
        out
    }

    /// Drops the row claiming one player id, if any.
    pub fn delete_verification_by_uid(&mut self, uid: i64)
        requires
            old(self).wf(),
        ensures
            final(self).wf(),
            final(self).spec_rows() == (match spec_find_uid(old(self).spec_rows(), uid, 0) {
                Some(i) => old(self).spec_rows().remove(i),
                None => old(self).spec_rows(),
            }),
    {
        let ghost rows0 = self.rows@;
        match self.find_uid(uid) {
            Some(i) => {
                self.rows.remove(i);
                proof {
                    assert forall|a: int, b: int|
                        0 <= a < b < self.rows@.len() implies (#[trigger] self.rows@[a]).uid != (
                    #[trigger] self.rows@[b]).uid by {
                        let a0: int = if a < i {
                            a
                        } else {
                            a + 1
                        };
                        let b0: int = if b < i {
                            b
                        } else {
                            b + 1
                        };
                        assert(self.rows@[a] == rows0[a0]);
                        assert(self.rows@[b] == rows0[b0]);
                    }
                }
            },
            None => {},
        }
    }
}

/// When nothing was found, no row holds the uid.
proof fn lemma_find_uid_none(rows: Seq<DbVerification>, uid: i64, i: int)
    requires
        0 <= i,
        spec_find_uid(rows, uid, i) is None,
    ensures
        forall|k: int| i <= k < rows.len() ==> (#[trigger] rows[k]).uid != uid,
    decreases rows.len() - i,
{
    if 0 <= i < rows.len() {
        lemma_find_uid_none(rows, uid, i + 1);
    }
}

} // verus!
