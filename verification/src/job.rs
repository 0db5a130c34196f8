//! Import jobs and the single-flight job manager.
//!
//! One job exists per player id at a time.  The manager answers a new
//! import request with the existing job while that job is still live,
//! and only replaces it once it has reached a terminal state; a
//! janitor removes terminal jobs after their grace period.  The job
//! itself is a small state machine `Pending -> Importing ->
//! Calculating -> Finished`, with `Failed` reachable from every
//! non-terminal state.

use vstd::prelude::*;

use crate::category::GachaType;

verus! {

/// Lifecycle state of an import job.
#[derive(Clone, Debug)]
pub enum Status {
    Pending,
    Importing,
    Calculating,
    Finished,
    Failed(String),
}

pub open spec fn spec_is_terminal(s: Status) -> bool {
    s is Finished || s is Failed
}

impl Status {
    pub fn is_terminal(&self) -> (b: bool)
        ensures
            b == spec_is_terminal(*self),
    {
        match self {
            Status::Finished => true,
            Status::Failed(_) => true,
            _ => false,
        }
    }
}

/// One player's import job: current status and the number of new
/// records each category contributed in this run.
#[derive(Debug)]
pub struct ImportJob {
    uid: i32,
    gacha_type: GachaType,
    beginner: usize,
    standard: usize,
    character: usize,
    weapon: usize,
    chronicled: usize,
    status: Status,
}

impl ImportJob {
    pub closed spec fn spec_uid(&self) -> i32 {
        self.uid
    }

    /// The category the background task is currently importing.
    pub closed spec fn spec_gacha_type(&self) -> GachaType {
        self.gacha_type
    }

    pub closed spec fn spec_status(&self) -> Status {
        self.status
    }

    /// New records imported so far for one category.
    pub closed spec fn spec_counter(&self, g: GachaType) -> usize {
        match g {
            GachaType::Beginner => self.beginner,
            GachaType::Standard => self.standard,
            GachaType::Character => self.character,
            GachaType::Weapon => self.weapon,
            GachaType::Chronicled => self.chronicled,
        }
    }

    pub fn uid(&self) -> (u: i32)
        ensures
            u == self.spec_uid(),
    {
        self.uid
    }

    pub fn gacha_type(&self) -> (g: GachaType)
        ensures
            g == self.spec_gacha_type(),
    {
        self.gacha_type
    }

    pub fn counter(&self, g: GachaType) -> (n: usize)
        ensures
            n == self.spec_counter(g),
    {
        match g {
            GachaType::Beginner => self.beginner,
            GachaType::Standard => self.standard,
            GachaType::Character => self.character,
            GachaType::Weapon => self.weapon,
            GachaType::Chronicled => self.chronicled,
        }
    }

    pub fn status(&self) -> (s: &Status)
        ensures
            *s == self.spec_status(),
    {
        &self.status
    }

    pub fn is_terminal(&self) -> (b: bool)
        ensures
            b == spec_is_terminal(self.spec_status()),
    {
        self.status.is_terminal()
    }

    /// A job as the manager creates it.
    pub fn new(uid: i32) -> (j: ImportJob)
        ensures
            j == spec_fresh_job(uid),
    {
        ImportJob {
            uid,
            gacha_type: GachaType::Standard,
            beginner: 0,
            standard: 0,
            character: 0,
            weapon: 0,
            chronicled: 0,
            status: Status::Pending,
        }
    }

    /// The owning task starts fetching one category.
    pub fn start_category(&mut self, g: GachaType)
        requires
            old(self).spec_status() is Pending || old(self).spec_status() is Importing,
        ensures
            final(self).spec_status() is Importing,
            final(self).spec_gacha_type() == g,
            final(self).spec_uid() == old(self).spec_uid(),
            forall|c: GachaType| final(self).spec_counter(c) == old(self).spec_counter(c),
    {
        self.gacha_type = g;
        self.status = Status::Importing;
    }

    /// Surfaces `n` freshly imported records of category `g` on the
    /// job, so a polling client sees live progress.
    pub fn add_new(&mut self, g: GachaType, n: usize)
        requires
            old(self).spec_status() is Importing,
            old(self).spec_counter(g) + n <= usize::MAX,
        ensures
            final(self).spec_status() is Importing,
            final(self).spec_uid() == old(self).spec_uid(),
            final(self).spec_gacha_type() == old(self).spec_gacha_type(),
            final(self).spec_counter(g) == old(self).spec_counter(g) + n,
            forall|c: GachaType| c != g ==> final(self).spec_counter(c) == old(self).spec_counter(c),
    {
        match g {
            GachaType::Beginner => self.beginner = self.beginner + n,
            GachaType::Standard => self.standard = self.standard + n,
            GachaType::Character => self.character = self.character + n,
            GachaType::Weapon => self.weapon = self.weapon + n,
            GachaType::Chronicled => self.chronicled = self.chronicled + n,
        }
    }

    /// All categories are fetched; the analytics pass begins.
    pub fn begin_calculating(&mut self)
        requires
            old(self).spec_status() is Importing,
        ensures
            final(self).spec_status() is Calculating,
            final(self).spec_uid() == old(self).spec_uid(),
            final(self).spec_gacha_type() == old(self).spec_gacha_type(),
            forall|c: GachaType| final(self).spec_counter(c) == old(self).spec_counter(c),
    {
        self.status = Status::Calculating;
    }

    /// The pipeline completed.
    pub fn finish(&mut self)
        requires
            old(self).spec_status() is Calculating,
        ensures
            final(self).spec_status() is Finished,
            final(self).spec_uid() == old(self).spec_uid(),
            final(self).spec_gacha_type() == old(self).spec_gacha_type(),
            forall|c: GachaType| final(self).spec_counter(c) == old(self).spec_counter(c),
    {
        self.status = Status::Finished;
    }

    /// An unrecoverable error aborts the job with its reason.
    pub fn fail(&mut self, reason: String)
        requires
            !spec_is_terminal(old(self).spec_status()),
        ensures
            final(self).spec_status() == Status::Failed(reason),
            final(self).spec_uid() == old(self).spec_uid(),
            final(self).spec_gacha_type() == old(self).spec_gacha_type(),
            forall|c: GachaType| final(self).spec_counter(c) == old(self).spec_counter(c),
    {
        self.status = Status::Failed(reason);
    }
}

/// The job a fresh request creates.
pub closed spec fn spec_fresh_job(uid: i32) -> ImportJob {
    ImportJob {
        uid,
        gacha_type: GachaType::Standard,
        beginner: 0,
        standard: 0,
        character: 0,
        weapon: 0,
        chronicled: 0,
        status: Status::Pending,
    }
}

pub proof fn lemma_fresh_job(uid: i32)
    ensures
        spec_fresh_job(uid).spec_uid() == uid,
        spec_fresh_job(uid).spec_status() is Pending,
        spec_fresh_job(uid).spec_gacha_type() is Standard,
        forall|c: GachaType| spec_fresh_job(uid).spec_counter(c) == 0,
{
}

/// First position holding `uid`, scanning from `i`.
pub open spec fn spec_find_from(jobs: Seq<ImportJob>, uid: i32, i: int) -> Option<int>
    decreases jobs.len() - i,
{
    if i < 0 || i >= jobs.len() {
        None
    } else if jobs[i].spec_uid() == uid {
        Some(i)
    } else {
        spec_find_from(jobs, uid, i + 1)
    }
}

pub open spec fn spec_find(jobs: Seq<ImportJob>, uid: i32) -> Option<int> {
    spec_find_from(jobs, uid, 0)
}

/// The shared map of active imports, keyed by player id.
#[derive(Debug)]
pub struct JobManager {
    jobs: Vec<ImportJob>,
}

impl JobManager {
    pub closed spec fn spec_jobs(&self) -> Seq<ImportJob> {
        self.jobs@
    }

    /// At most one job per player id.
    pub open spec fn wf(&self) -> bool {
        forall|i: int, j: int|
            0 <= i < j < self.spec_jobs().len() ==> (#[trigger] self.spec_jobs()[i]).spec_uid() != (
            #[trigger] self.spec_jobs()[j]).spec_uid()
    }

    pub fn new() -> (m: JobManager)
        ensures
            m.wf(),
            m.spec_jobs() == Seq::<ImportJob>::empty(),
    {
        JobManager { jobs: Vec::new() }
    }

    fn find_index(&self, uid: i32) -> (r: Option<usize>)
        ensures
            r matches Some(i) ==> spec_find(self.spec_jobs(), uid) == Some(i as int) && i
                < self.spec_jobs().len() && self.spec_jobs()[i as int].spec_uid() == uid,
            r is None ==> spec_find(self.spec_jobs(), uid) is None,
    {
        let mut i: usize = 0;
        while i < self.jobs.len()
            invariant
                0 <= i <= self.jobs@.len(),
                spec_find(self.jobs@, uid) == spec_find_from(self.jobs@, uid, i as int),
            decreases self.jobs@.len() - i,
        {
            if self.jobs[i].uid() == uid {
                return Some(i);
            }
            i = i + 1;
        }
        None
    }

    /// Observes the job of one player, if any.  An expired or never
    /// requested job is indistinguishable from "not found".
    pub fn get(&self, uid: i32) -> (r: Option<&ImportJob>)
        ensures
            r matches Some(j) ==> spec_find(self.spec_jobs(), uid) matches Some(i) && *j
                == self.spec_jobs()[i],
            r is None ==> spec_find(self.spec_jobs(), uid) is None,
    {
        match self.find_index(uid) {
            Some(i) => Some(&self.jobs[i]),
            None => None,
        }
    }

    /// The single-flight gate: while a live (non-terminal) job exists
    /// for `uid`, the request changes nothing and no new work starts;
    /// otherwise a fresh `Pending` job takes the slot.
    pub fn request_import(&mut self, uid: i32) -> (started: bool)
        requires
            old(self).wf(),
        ensures
            final(self).wf(),
            started <==> (spec_find(old(self).spec_jobs(), uid) is None || spec_is_terminal(
                old(self).spec_jobs()[spec_find(old(self).spec_jobs(), uid)->0].spec_status(),
            )),
            !started ==> final(self).spec_jobs() == old(self).spec_jobs(),
            started ==> final(self).spec_jobs() == (match spec_find(old(self).spec_jobs(), uid) {
                Some(i) => old(self).spec_jobs().update(i, spec_fresh_job(uid)),
                None => old(self).spec_jobs().push(spec_fresh_job(uid)),
            }),
    {
        let ghost jobs0 = self.jobs@;
        match self.find_index(uid) {
            Some(i) => {
                if self.jobs[i].is_terminal() {
                    let fresh = ImportJob::new(uid);
                    let slot = &mut self.jobs[i];
                    *slot = fresh;
                    proof {
                        lemma_find_in_range(jobs0, uid, 0);
                        assert forall|a: int, b: int|
                            0 <= a < b < self.jobs@.len() implies (
                        #[trigger] self.jobs@[a]).spec_uid() != (
                        #[trigger] self.jobs@[b]).spec_uid() by {
                            assert(jobs0[i as int].spec_uid() == uid);
                            if a != i {
                                assert(self.jobs@[a] == jobs0[a]);
                            }
                            if b != i {
                                assert(self.jobs@[b] == jobs0[b]);
                            }
                        }
                    }
                    true
                } else {
                    false
                }
            },
            None => {
                let fresh = ImportJob::new(uid);
                self.jobs.push(fresh);
                proof {
                    lemma_find_none_no_uid(jobs0, uid, 0);
                    assert forall|a: int, b: int|
                        0 <= a < b < self.jobs@.len() implies (
                    #[trigger] self.jobs@[a]).spec_uid() != (
                    #[trigger] self.jobs@[b]).spec_uid() by {
                        if b < jobs0.len() {
                            assert(self.jobs@[a] == jobs0[a] && self.jobs@[b] == jobs0[b]);
                        } else {
                            assert(self.jobs@[a] == jobs0[a]);
                            assert(self.jobs@[b] == spec_fresh_job(uid));
                            assert(jobs0[a].spec_uid() != uid);
                        }
                    }
                }
                true
            },
        }
    }

    /// The janitor: removes the player's job once, and only once, it
    /// is terminal, so pollers can still observe the terminal status
    /// during the grace period before this runs.
    pub fn remove(&mut self, uid: i32) -> (removed: bool)
        requires
            old(self).wf(),
        ensures
            final(self).wf(),
            removed <==> (spec_find(old(self).spec_jobs(), uid) matches Some(i) && spec_is_terminal(
                old(self).spec_jobs()[i].spec_status(),
            )),
            removed ==> final(self).spec_jobs() == old(self).spec_jobs().remove(
                spec_find(old(self).spec_jobs(), uid)->0,
            ),
            !removed ==> final(self).spec_jobs() == old(self).spec_jobs(),
    {
        let ghost jobs0 = self.jobs@;
        match self.find_index(uid) {
            Some(i) => {
                if self.jobs[i].is_terminal() {
                    proof {
                        lemma_find_in_range(jobs0, uid, 0);
                    }
                    self.jobs.remove(i);
                    proof {
                        assert forall|a: int, b: int|
                            0 <= a < b < self.jobs@.len() implies (
                        #[trigger] self.jobs@[a]).spec_uid() != (
                        #[trigger] self.jobs@[b]).spec_uid() by {
                            let a0: int = if a < i {
                                a
                            } else {
                                a + 1
                            };
                            let b0: int = if b < i {
                                b
                            } else {
                                b + 1
                            };
                            assert(self.jobs@[a] == jobs0[a0]);
                            assert(self.jobs@[b] == jobs0[b0]);
                        }
                    }
                    true
                } else {
                    false
                }
            },
            None => false,
        }
    }

    /// How many jobs are live or awaiting cleanup.
    pub fn len(&self) -> (n: usize)
        ensures
            n == self.spec_jobs().len(),
    {
        self.jobs.len()
    }

    /// Mutable access to one job slot, for the task that owns it.
    pub fn job_mut(&mut self, i: usize) -> (j: &mut ImportJob)
        requires
            i < old(self).spec_jobs().len(),
        ensures
            *j == old(self).spec_jobs()[i as int],
            final(self).spec_jobs() == old(self).spec_jobs().update(i as int, *final(j)),
    {
        &mut self.jobs[i]
    }

    /// Index of the player's job slot.
    pub fn index_of(&self, uid: i32) -> (r: Option<usize>)
        ensures
            r matches Some(i) ==> spec_find(self.spec_jobs(), uid) == Some(i as int) && i
                < self.spec_jobs().len(),
            r is None ==> spec_find(self.spec_jobs(), uid) is None,
    {
        proof {
            lemma_find_in_range(self.spec_jobs(), uid, 0);
        }
        self.find_index(uid)
    }
}

/// A found index lies in range and holds the uid.
pub proof fn lemma_find_in_range(jobs: Seq<ImportJob>, uid: i32, i: int)
    ensures
        spec_find_from(jobs, uid, i) matches Some(k) ==> i <= k < jobs.len() && jobs[k].spec_uid()
            == uid,
    decreases jobs.len() - i,
{
    if 0 <= i < jobs.len() && jobs[i].spec_uid() != uid {
        lemma_find_in_range(jobs, uid, i + 1);
    }
}

/// When nothing is found, no slot from `i` on holds the uid.
proof fn lemma_find_none_no_uid(jobs: Seq<ImportJob>, uid: i32, i: int)
    requires
        0 <= i,
        spec_find_from(jobs, uid, i) is None,
    ensures
        forall|k: int| i <= k < jobs.len() ==> (#[trigger] jobs[k]).spec_uid() != uid,
    decreases jobs.len() - i,
{
    if 0 <= i < jobs.len() {
        lemma_find_none_no_uid(jobs, uid, i + 1);
    }
}

} // verus!
