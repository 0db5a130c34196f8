//! Pity and banner analytics.
//!
//! Over a player's pulls of one category, ordered oldest first, this
//! module derives the running pull counters, the win/loss/guarantee
//! classification of five-star hits against promotional banners, and
//! the soft-pity probability curves.  Probabilities are in tenths of a
//! percent, so `1000` is certainty.

use vstd::prelude::*;

use crate::category::GachaType;
use crate::record::PullRecord;

verus! {

/// A time-bounded promotion featuring one item; `start` is inclusive,
/// `end` exclusive.
#[derive(Clone, Copy, Debug, PartialEq, Eq, Structural)]
pub struct Banner {
    pub item_id: i32,
    pub start: i64,
    pub end: i64,
}

/// How a five-star hit relates to the featured banner.
#[derive(Clone, Copy, Debug, PartialEq, Eq, Structural)]
pub enum WinType {
    Win,
    Loss,
    Guarantee,
}

/// One pull, as the analytics engine consumes it.
#[derive(Clone, Copy, Debug, PartialEq, Eq, Structural)]
pub struct Pull {
    pub id: i64,
    pub item_id: i32,
    pub rarity: i32,
    /// UTC seconds since the Unix epoch.
    pub timestamp: i64,
}

/// A pull together with its derived counters and classification.
#[derive(Clone, Copy, Debug, PartialEq, Eq)]
pub struct AnnotatedPull {
    pub id: i64,
    pub item_id: i32,
    pub rarity: i32,
    pub timestamp: i64,
    /// Position since category start, starting at 1.
    pub pull: usize,
    /// Pulls since the last four-star, this one included.
    pub pull_4: usize,
    /// Pulls since the last five-star, this one included.
    pub pull_5: usize,
    pub win: Option<WinType>,
}

/// The running state after some prefix of the pulls.
#[derive(Clone, Copy, Debug, PartialEq, Eq, Structural)]
pub struct PityState {
    pub pull: usize,
    pub pull_4: usize,
    pub pull_5: usize,
    /// True when the previous five-star lost the featured banner, so
    /// the next one is forced to be featured.
    pub guarantee: bool,
}

/// Whether some banner features `item_id` at time `t`.
pub open spec fn spec_on_banner(banners: Seq<Banner>, item_id: i32, t: i64) -> bool {
    exists|i: int|
        0 <= i < banners.len() && (#[trigger] banners[i]).item_id == item_id && banners[i].start
            <= t < banners[i].end
}

pub fn on_banner(banners: &Vec<Banner>, item_id: i32, t: i64) -> (b: bool)
    ensures
        b == spec_on_banner(banners@, item_id, t),
{
    let mut i: usize = 0;
    while i < banners.len()
        invariant
            0 <= i <= banners@.len(),
            forall|j: int|
                0 <= j < i ==> !((#[trigger] banners@[j]).item_id == item_id && banners@[j].start
                    <= t < banners@[j].end),
        decreases banners@.len() - i,
    {
        let b = banners[i];
        if b.item_id == item_id && b.start <= t && t < b.end {
            return true;
        }
        i = i + 1;
    }
    false
}

/// Pulls since the last four-star after the first `n` pulls: zero
/// right after a four-star hit, otherwise one more than before.
pub open spec fn pity4_after(pulls: Seq<Pull>, n: int) -> int
    decreases n,
{
    if n <= 0 {
        0
    } else if pulls[n - 1].rarity == 4 {
        0
    } else {
        pity4_after(pulls, n - 1) + 1
    }
}

/// Pulls since the last five-star after the first `n` pulls.
pub open spec fn pity5_after(pulls: Seq<Pull>, n: int) -> int
    decreases n,
{
    if n <= 0 {
        0
    } else if pulls[n - 1].rarity == 5 {
        0
    } else {
        pity5_after(pulls, n - 1) + 1
    }
}

/// The guarantee flag after the first `n` pulls: armed by a five-star
/// that missed the banner, cleared by the five-star it forces.
pub open spec fn guarantee_after(pulls: Seq<Pull>, banners: Seq<Banner>, n: int) -> bool
    decreases n,
{
    if n <= 0 {
        false
    } else if pulls[n - 1].rarity == 5 {
        if guarantee_after(pulls, banners, n - 1) {
            false
        } else if spec_on_banner(banners, pulls[n - 1].item_id, pulls[n - 1].timestamp) {
            false
        } else {
            true
        }
    } else {
        guarantee_after(pulls, banners, n - 1)
    }
}

/// Classification of pull `i`: only five-stars in a featured category
/// are classified.
pub open spec fn spec_win(pulls: Seq<Pull>, banners: Seq<Banner>, featured: bool, i: int) -> Option<
    WinType,
> {
    if !featured || pulls[i].rarity != 5 {
        None
    } else if guarantee_after(pulls, banners, i) {
        Some(WinType::Guarantee)
    } else if spec_on_banner(banners, pulls[i].item_id, pulls[i].timestamp) {
        Some(WinType::Win)
    } else {
        Some(WinType::Loss)
    }
}

/// What the annotation of pull `i` must be.
pub open spec fn spec_annotated(
    pulls: Seq<Pull>,
    banners: Seq<Banner>,
    featured: bool,
    i: int,
) -> AnnotatedPull {
    AnnotatedPull {
        id: pulls[i].id,
        item_id: pulls[i].item_id,
        rarity: pulls[i].rarity,
        timestamp: pulls[i].timestamp,
        pull: (i + 1) as usize,
        pull_4: (pity4_after(pulls, i) + 1) as usize,
        pull_5: (pity5_after(pulls, i) + 1) as usize,
        win: spec_win(pulls, banners, featured, i),
    }
}

/// The whole annotated sequence, element by element.
pub open spec fn spec_annotated_seq(
    pulls: Seq<Pull>,
    banners: Seq<Banner>,
    featured: bool,
) -> Seq<AnnotatedPull> {
    Seq::new(pulls.len(), |i: int| spec_annotated(pulls, banners, featured, i))
}

/// Pity counters never leave `[0, n]`: they are non-negative and grow
/// at most one per pull.
pub proof fn lemma_pity_bounds(pulls: Seq<Pull>, n: int)
    ensures
        0 <= pity4_after(pulls, n) <= if n >= 0 { n } else { 0 },
        0 <= pity5_after(pulls, n) <= if n >= 0 { n } else { 0 },
    decreases n,
{
    if n > 0 {
        lemma_pity_bounds(pulls, n - 1);
    }
}

/// The exact step a pity counter takes at pull `n`: reset to zero on a
/// hit of its rarity, one more otherwise.  With the bounds above this
/// is the guarantee that counters reset exactly at hits and never
/// regress between them.
pub proof fn lemma_pity_step(pulls: Seq<Pull>, n: int)
    requires
        1 <= n <= pulls.len(),
    ensures
        pity4_after(pulls, n) == if pulls[n - 1].rarity == 4 {
            0int
        } else {
            pity4_after(pulls, n - 1) + 1
        },
        pity5_after(pulls, n) == if pulls[n - 1].rarity == 5 {
            0int
        } else {
            pity5_after(pulls, n - 1) + 1
        },
{
}

/// The guarantee flag is untouched by pulls below five stars.
proof fn lemma_guarantee_stable(pulls: Seq<Pull>, banners: Seq<Banner>, a: int, b: int)
    requires
        0 <= a <= b <= pulls.len(),
        forall|k: int| a <= k < b ==> (#[trigger] pulls[k]).rarity != 5,
    ensures
        guarantee_after(pulls, banners, b) == guarantee_after(pulls, banners, a),
    decreases b - a,
{
    if a < b {
        assert(pulls[b - 1].rarity != 5);
        lemma_guarantee_stable(pulls, banners, a, b - 1);
    }
}

/// Guarantee alternation: a five-star classified `Loss` forces the next
/// classified five-star of the category to be `Guarantee`, so no two
/// consecutive `Loss` classifications can occur.
pub proof fn lemma_guarantee_alternation(
    pulls: Seq<Pull>,
    banners: Seq<Banner>,
    i: int,
    j: int,
)
    requires
        0 <= i < j < pulls.len(),
        spec_win(pulls, banners, true, i) == Some(WinType::Loss),
        spec_win(pulls, banners, true, j) is Some,
        forall|k: int| i < k < j ==> spec_win(pulls, banners, true, k) is None,
    ensures
        spec_win(pulls, banners, true, j) == Some(WinType::Guarantee),
{
    assert(pulls[i].rarity == 5);
    assert(!guarantee_after(pulls, banners, i));
    assert(!spec_on_banner(banners, pulls[i].item_id, pulls[i].timestamp));
    assert(guarantee_after(pulls, banners, i + 1));
    assert forall|k: int| i + 1 <= k < j implies (#[trigger] pulls[k]).rarity != 5 by {
        assert(spec_win(pulls, banners, true, k) is None);
    }
    lemma_guarantee_stable(pulls, banners, i + 1, j);
    assert(pulls[j].rarity == 5);
}

/// Runs the pity fold over a category's pulls, oldest first, producing
/// each pull's counters and classification plus the final state.
pub fn annotate(pulls: &Vec<Pull>, banners: &Vec<Banner>, featured: bool) -> (r: (
    Vec<AnnotatedPull>,
    PityState,
))
    ensures
        r.0@.len() == pulls@.len(),
        forall|i: int|
            0 <= i < pulls@.len() ==> r.0@[i] == spec_annotated(pulls@, banners@, featured, i),
        r.1.pull == pulls@.len(),
        r.1.pull_4 == pity4_after(pulls@, pulls@.len() as int),
        r.1.pull_5 == pity5_after(pulls@, pulls@.len() as int),
        r.1.guarantee == (featured && guarantee_after(pulls@, banners@, pulls@.len() as int)),
{
    let mut out: Vec<AnnotatedPull> = Vec::new();
    let mut st = PityState { pull: 0, pull_4: 0, pull_5: 0, guarantee: false };
    let mut i: usize = 0;
    while i < pulls.len()
        invariant
            0 <= i <= pulls@.len(),
            out@.len() == i,
            forall|k: int|
                0 <= k < i ==> out@[k] == spec_annotated(pulls@, banners@, featured, k),
            st.pull == i,
            st.pull_4 == pity4_after(pulls@, i as int),
            st.pull_5 == pity5_after(pulls@, i as int),
            st.guarantee == (featured && guarantee_after(pulls@, banners@, i as int)),
        decreases pulls@.len() - i,
    {
        proof {
            lemma_pity_bounds(pulls@, i as int);
        }
        let p = pulls[i];
        let pull: usize = st.pull + 1;
        let pull_4: usize = st.pull_4 + 1;
        let pull_5: usize = st.pull_5 + 1;
        let mut win: Option<WinType> = None;
        let mut guarantee = st.guarantee;
        let mut next_4 = pull_4;
        let mut next_5 = pull_5;
        if p.rarity == 4 {
            next_4 = 0;
        }
        if p.rarity == 5 {
            next_5 = 0;
            if featured {
                if st.guarantee {
                    guarantee = false;
                    win = Some(WinType::Guarantee);
                } else if on_banner(banners, p.item_id, p.timestamp) {
                    win = Some(WinType::Win);
                } else {
                    guarantee = true;
                    win = Some(WinType::Loss);
                }
            }
        }
        out.push(
            AnnotatedPull {
                id: p.id,
                item_id: p.item_id,
                rarity: p.rarity,
                timestamp: p.timestamp,
                pull,
                pull_4,
                pull_5,
                win,
            },
        );
        st = PityState { pull, pull_4: next_4, pull_5: next_5, guarantee };
        i = i + 1;
    }
    (out, st)
}

/// Soft-pity curve constants of one category, in tenths of a percent.
#[derive(Clone, Copy, Debug, PartialEq, Eq, Structural)]
pub struct PityCurve {
    /// Four-star rate below the four-star ceiling.
    pub base_4: u32,
    /// Four-star hard ceiling (pull count with certainty).
    pub max_4: u32,
    /// Five-star base rate below the soft-pity region.
    pub base_5: u32,
    /// Pull count after which the five-star rate starts climbing.
    pub soft_start_5: u32,
    /// Rate increase per pull past `soft_start_5`.
    pub step_5: u32,
    /// Five-star hard ceiling.
    pub max_5: u32,
}

/// A curve whose rates stay inside `[0, 1000]`.
pub open spec fn curve_wf(c: PityCurve) -> bool {
    &&& c.base_4 <= 1000
    &&& 1 <= c.max_4
    &&& c.soft_start_5 + 1 < c.max_5
    &&& c.base_5 + c.step_5 * (c.max_5 - 2 - c.soft_start_5) <= 1000
}

/// Four-star probability on the next pull: base rate until the pull
/// before the ceiling, then certainty.
pub open spec fn spec_probability_4(c: PityCurve, p: int) -> int {
    if p + 1 < c.max_4 {
        c.base_4 as int
    } else {
        1000
    }
}

/// Five-star probability on the next pull: base rate up to the soft
/// start, then climbing linearly, then certainty at the pull before
/// the ceiling.
pub open spec fn spec_probability_5(c: PityCurve, p: int) -> int {
    if p + 1 >= c.max_5 {
        1000
    } else if p <= c.soft_start_5 {
        c.base_5 as int
    } else {
        c.base_5 + c.step_5 * (p - c.soft_start_5)
    }
}

pub fn probability_4(c: &PityCurve, pull_4: usize) -> (r: u32)
    requires
        curve_wf(*c),
    ensures
        r == spec_probability_4(*c, pull_4 as int),
        r <= 1000,
{
    if (pull_4 as u128) + 1 < c.max_4 as u128 {
        c.base_4
    } else {
        1000
    }
}

pub fn probability_5(c: &PityCurve, pull_5: usize) -> (r: u32)
    requires
        curve_wf(*c),
    ensures
        r == spec_probability_5(*c, pull_5 as int),
        r <= 1000,
{
    if (pull_5 as u128) + 1 >= c.max_5 as u128 {
        1000
    } else if pull_5 as u64 <= c.soft_start_5 as u64 {
        c.base_5
    } else {
        let extra: u32 = (pull_5 as u64 - c.soft_start_5 as u64) as u32;
        proof {
            assert(extra <= c.max_5 - 2 - c.soft_start_5);
            assert(c.step_5 * extra <= c.step_5 * (c.max_5 - 2 - c.soft_start_5))
                by (nonlinear_arith)
                requires
                    extra <= c.max_5 - 2 - c.soft_start_5,
                    c.step_5 >= 0,
            ;
        }
        c.base_5 + c.step_5 * extra
    }
}

/// The published curve of each category, as data: the beginner and
/// chronicled pools publish no curve.
pub open spec fn spec_curve_for(g: GachaType) -> Option<PityCurve> {
    match g {
        GachaType::Standard | GachaType::Character => Some(
            PityCurve {
                base_4: 51,
                max_4: 10,
                base_5: 6,
                soft_start_5: 72,
                step_5: 60,
                max_5: 90,
            },
        ),
        GachaType::Weapon => Some(
            PityCurve {
                base_4: 66,
                max_4: 10,
                base_5: 8,
                soft_start_5: 64,
                step_5: 70,
                max_5: 80,
            },
        ),
        _ => None,
    }
}

pub fn curve_for(g: GachaType) -> (r: Option<PityCurve>)
    ensures
        r == spec_curve_for(g),
        r matches Some(c) ==> curve_wf(c),
{
    match g {
        GachaType::Standard | GachaType::Character => Some(
            PityCurve {
                base_4: 51,
                max_4: 10,
                base_5: 6,
                soft_start_5: 72,
                step_5: 60,
                max_5: 90,
            },
        ),
        GachaType::Weapon => Some(
            PityCurve {
                base_4: 66,
                max_4: 10,
                base_5: 8,
                soft_start_5: 64,
                step_5: 70,
                max_5: 80,
            },
        ),
        _ => None,
    }
}

/// A stored record as the analytics engine consumes it; the item's
/// rarity comes from the item catalog.
pub fn pull_of_record(rec: &PullRecord, rarity: i32) -> (p: Pull)
    ensures
        p.id == rec.id,
        p.item_id == rec.item.spec_item_id(),
        p.rarity == rarity,
        p.timestamp == rec.timestamp,
{
    Pull { id: rec.id, item_id: rec.item.item_id(), rarity, timestamp: rec.timestamp }
}

/// One category's tracker view: every pull annotated, the running
/// counters after the last pull, and the soft-pity outlook for the
/// next one.
#[derive(Debug)]
pub struct CategoryTrack {
    pub pulls: Vec<AnnotatedPull>,
    /// Counters after the last pull; `pull` doubles as the count.
    pub state: PityState,
    /// Chance of a four-star on the next pull, tenths of a percent;
    /// zero for categories that publish no curve.
    pub probability_4: u32,
    /// Chance of a five-star on the next pull, tenths of a percent.
    pub probability_5: u32,
    /// Four-star hard ceiling, zero without a curve.
    pub max_pull_4: u32,
    /// Five-star hard ceiling, zero without a curve.
    pub max_pull_5: u32,
}

/// Builds the tracker view of one category from its ordered pulls and
/// the banner catalog.
pub fn track_category(g: GachaType, pulls: &Vec<Pull>, banners: &Vec<Banner>) -> (r: CategoryTrack)
    ensures
        r.pulls@.len() == pulls@.len(),
        forall|i: int|
            0 <= i < pulls@.len() ==> r.pulls@[i] == spec_annotated(
                pulls@,
                banners@,
                g.spec_has_featured_banner(),
                i,
            ),
        r.state.pull == pulls@.len(),
        r.state.pull_4 == pity4_after(pulls@, pulls@.len() as int),
        r.state.pull_5 == pity5_after(pulls@, pulls@.len() as int),
        r.state.guarantee == (g.spec_has_featured_banner() && guarantee_after(
            pulls@,
            banners@,
            pulls@.len() as int,
        )),
        (match spec_curve_for(g) {
            Some(c) => r.probability_4 == spec_probability_4(c, r.state.pull_4 as int)
                && r.probability_5 == spec_probability_5(c, r.state.pull_5 as int) && r.max_pull_4
                == c.max_4 && r.max_pull_5 == c.max_5,
            None => r.probability_4 == 0 && r.probability_5 == 0 && r.max_pull_4 == 0
                && r.max_pull_5 == 0,
        }),
{
    let featured = g.has_featured_banner();
    let (annotated, state) = annotate(pulls, banners, featured);
    let mut track = CategoryTrack {
        pulls: annotated,
        state,
        probability_4: 0,
        probability_5: 0,
        max_pull_4: 0,
        max_pull_5: 0,
    };
    match curve_for(g) {
        Some(c) => {
            track.probability_4 = probability_4(&c, state.pull_4);
            track.probability_5 = probability_5(&c, state.pull_5);
            track.max_pull_4 = c.max_4;
            track.max_pull_5 = c.max_5;
        },
        None => {},
    }
    track
}

/// Boundary values of the standard/character five-star curve: the base
/// rate holds through the soft start at pull 72, the rate climbs by
/// 6.0 percentage points per pull after it, and certainty is reached
/// one pull before the ceiling of 90.  Rates are tenths of a percent.
pub proof fn lemma_soft_pity_boundary(p: int)
    ensures
        spec_probability_5(spec_curve_for(GachaType::Standard)->0, 72) == 6,
        72 < p < 89 ==> spec_probability_5(spec_curve_for(GachaType::Standard)->0, p) == 6 + 60 * (
        p - 72),
        p >= 89 ==> spec_probability_5(spec_curve_for(GachaType::Standard)->0, p) == 1000,
        spec_probability_4(spec_curve_for(GachaType::Standard)->0, 8) == 51,
        spec_probability_4(spec_curve_for(GachaType::Standard)->0, 9) == 1000,
{
}

} // verus!
