//! Population statistics: percentile standing and luck metrics.

use vstd::prelude::*;

use crate::analytics::{annotate, lemma_pity_bounds, spec_annotated_seq, AnnotatedPull, Banner,
    Pull};

verus! {

/// How many of the first `n` values are at most `v`.
pub open spec fn spec_count_le(values: Seq<u64>, v: u64, n: int) -> int
    decreases n,
{
    if n <= 0 {
        0
    } else {
        spec_count_le(values, v, n - 1) + if values[n - 1] <= v {
            1int
        } else {
            0int
        }
    }
}

/// A player's standing within a population: `rank` of `count` players
/// have a value at most the player's, so the percentile is the exact
/// ratio `rank / count`.
#[derive(Clone, Copy, Debug, PartialEq, Eq, Structural)]
pub struct Percentile {
    pub rank: usize,
    pub count: usize,
}

/// The 1-based ascending rank of `v` within the population `values`:
/// the number of population values at most `v`.
pub fn rank_in(values: &Vec<u64>, v: u64) -> (r: usize)
    ensures
        r == spec_count_le(values@, v, values@.len() as int),
        r <= values@.len(),
{
    let mut r: usize = 0;
    let mut i: usize = 0;
    while i < values.len()
        invariant
            0 <= i <= values@.len(),
            r == spec_count_le(values@, v, i as int),
            r <= i,
        decreases values@.len() - i,
    {
        if values[i] <= v {
            r = r + 1;
        }
        i = i + 1;
    }
    r
}

/// Ranks a player's aggregate value against the whole population.
pub fn count_percentile(values: &Vec<u64>, v: u64) -> (p: Percentile)
    ensures
        p.rank == spec_count_le(values@, v, values@.len() as int),
        p.count == values@.len(),
        p.rank <= p.count,
{
    let rank = rank_in(values, v);
    Percentile { rank, count: values.len() }
}

/// Five-star hits among the first `n` annotated pulls.
pub open spec fn spec_hits(ann: Seq<AnnotatedPull>, rarity: i32, n: int) -> int
    decreases n,
{
    if n <= 0 {
        0
    } else {
        spec_hits(ann, rarity, n - 1) + if ann[n - 1].rarity == rarity {
            1int
        } else {
            0int
        }
    }
}

/// Summed pulls-to-hit over the hits of one rarity: for a five-star
/// hit the cost is its `pull_5` counter, for a four-star its `pull_4`.
pub open spec fn spec_pity_cost_sum(ann: Seq<AnnotatedPull>, rarity: i32, n: int) -> int
    decreases n,
{
    if n <= 0 {
        0
    } else {
        spec_pity_cost_sum(ann, rarity, n - 1) + if ann[n - 1].rarity == rarity {
            if rarity == 4 {
                ann[n - 1].pull_4 as int
            } else {
                ann[n - 1].pull_5 as int
            }
        } else {
            0int
        }
    }
}

/// The luck metric of one rarity: summed pulls-to-hit and hit count,
/// whose ratio is the average pulls per hit.  `None` when there is no
/// hit to average over.
pub fn luck_metric(ann: &Vec<AnnotatedPull>, rarity: i32) -> (r: Option<(u64, u64)>)
    requires
        ann@.len() <= 0xffff_ffff,
        forall|k: int|
            0 <= k < ann@.len() ==> (#[trigger] ann@[k]).pull_4 <= ann@.len() && ann@[k].pull_5
                <= ann@.len(),
    ensures
        r matches Some(sc) ==> sc.0 == spec_pity_cost_sum(ann@, rarity, ann@.len() as int) && sc.1
            == spec_hits(ann@, rarity, ann@.len() as int) && sc.1 > 0,
        r is None <==> spec_hits(ann@, rarity, ann@.len() as int) == 0,
{
    let mut sum: u64 = 0;
    let mut hits: u64 = 0;
    let mut i: usize = 0;
    while i < ann.len()
        invariant
            0 <= i <= ann@.len(),
            ann@.len() <= 0xffff_ffff,
            forall|k: int|
                0 <= k < ann@.len() ==> (#[trigger] ann@[k]).pull_4 <= ann@.len() && ann@[k].pull_5
                    <= ann@.len(),
            hits == spec_hits(ann@, rarity, i as int),
            sum == spec_pity_cost_sum(ann@, rarity, i as int),
            hits <= i,
            sum <= i * ann@.len(),
        decreases ann@.len() - i,
    {
        let a = ann[i];
        if a.rarity == rarity {
            let cost: usize = if rarity == 4 {
                a.pull_4
            } else {
                a.pull_5
            };
            proof {
                assert((i + 1) * ann@.len() == i * ann@.len() + ann@.len()) by (nonlinear_arith);
                assert((i + 1) * ann@.len() <= ann@.len() * ann@.len()) by (nonlinear_arith)
                    requires
                        0 <= i + 1 <= ann@.len(),
                ;
                assert(ann@.len() * ann@.len() <= 0xffff_ffff * 0xffff_ffff) by (nonlinear_arith)
                    requires
                        0 <= ann@.len() <= 0xffff_ffff,
                ;
            }
            sum = sum + cost as u64;
            hits = hits + 1;
        } else {
            proof {
                assert((i + 1) * ann@.len() >= i * ann@.len()) by (nonlinear_arith)
                    requires
                        i >= 0,
                        ann@.len() >= 0,
                ;
            }
        }
        i = i + 1;
    }
    if hits == 0 {
        None
    } else {
        Some((sum, hits))
    }
}

/// Runs the pity pass and reads the luck metric off it in one step;
/// the counter bounds the metric needs hold of every annotated pass.
pub fn luck_of_pulls(pulls: &Vec<Pull>, banners: &Vec<Banner>, featured: bool, rarity: i32) -> (r:
    Option<(u64, u64)>)
    requires
        pulls@.len() <= 0xffff_ffff,
    ensures
        ({
            let ann = spec_annotated_seq(pulls@, banners@, featured);
            let n = ann.len() as int;
            &&& (r matches Some(sc) ==> sc.0 == spec_pity_cost_sum(ann, rarity, n) && sc.1
                == spec_hits(ann, rarity, n) && sc.1 > 0)
            &&& (r is None <==> spec_hits(ann, rarity, n) == 0)
        }),
{
    let (ann, _) = annotate(pulls, banners, featured);
    proof {
        assert(ann@ =~= spec_annotated_seq(pulls@, banners@, featured));
        assert forall|k: int|
            0 <= k < ann@.len() implies (#[trigger] ann@[k]).pull_4 <= ann@.len()
            && ann@[k].pull_5 <= ann@.len() by {
            lemma_pity_bounds(pulls@, k);
        }
    }
    luck_metric(&ann, rarity)
}

} // verus!
