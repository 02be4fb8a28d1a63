//! Time-based resource accrual: once per tick, each pool gains its
//! generators' summed rate for every whole second elapsed since the last
//! accrual boundary, clamped at the pool's cap.
//!
//! Accrual is strictly linear, never compounding. A tick whose elapsed
//! time is zero or negative (sub-second ticks, clock skew) changes
//! nothing, and in particular does not advance the boundary, so
//! fractional seconds are never lost.

use vstd::prelude::*;

use crate::components::{PlacedBuilding, PlayerStats, ResourceInfo, ResourceType};

verus! {

/// The rate `pb` contributes to pools of kind `kind`.
pub open spec fn gen_rate(pb: PlacedBuilding, kind: ResourceType) -> int {
    match pb.generator {
        Some(g) => if g.resource_type == kind {
            g.rate as int
        } else {
            0
        },
        None => 0,
    }
}

/// The summed rate of every live generator of kind `kind`.
pub open spec fn rate_sum(bs: Seq<PlacedBuilding>, kind: ResourceType) -> int
    decreases bs.len(),
{
    if bs.len() == 0 {
        0
    } else {
        rate_sum(bs.drop_last(), kind) + gen_rate(bs.last(), kind)
    }
}

/// A sum of well-formed generator rates is never negative and never
/// exceeds one `i32::MAX` per building.
pub proof fn lemma_rate_sum_bounds(bs: Seq<PlacedBuilding>, kind: ResourceType)
    requires
        forall|i: int| 0 <= i < bs.len() ==> (#[trigger] bs[i]).wf(),
    ensures
        0 <= rate_sum(bs, kind) <= bs.len() * i32::MAX as int,
    decreases bs.len(),
{
    if bs.len() > 0 {
        lemma_rate_sum_bounds(bs.drop_last(), kind);
    }
}

/// One pool's value after accruing `rs`-per-second for `e` whole
/// seconds: the amount is clamped at the cap, and the displayed rate
/// becomes the generator sum (saturated at the field's width).
pub open spec fn pool_after(p: ResourceInfo, rs: int, e: int) -> ResourceInfo {
    ResourceInfo {
        amount: vstd::math::min(p.max_amount as int, p.amount + rs * e) as i32,
        max_amount: p.max_amount,
        rate: vstd::math::min(rs, i32::MAX as int) as i32,
    }
}

/// The whole ledger after an accrual pass at time `now` with the live
/// generators of `bs`: a no-op when no whole second has elapsed,
/// otherwise every pool accrues and the boundary advances to `now`.
pub open spec fn stats_after(pre: PlayerStats, bs: Seq<PlacedBuilding>, now: i64) -> PlayerStats {
    let e = now as int - pre.next_refresh as int;
    if e <= 0 {
        pre
    } else {
        PlayerStats {
            food: pool_after(pre.food, rate_sum(bs, ResourceType::Food), e),
            wood: pool_after(pre.wood, rate_sum(bs, ResourceType::Wood), e),
            stone: pool_after(pre.stone, rate_sum(bs, ResourceType::Stone), e),
            next_refresh: now,
        }
    }
}

/// The accrual gain rule: the pool grows by exactly
/// `min(max - amount, rs * e)`, and never past its cap.
pub open spec fn accrues_exactly(pre: ResourceInfo, post: ResourceInfo, rs: int, e: int) -> bool {
    &&& post.amount - pre.amount == vstd::math::min(pre.max_amount - pre.amount, rs * e)
    &&& post.amount <= post.max_amount
    &&& post.max_amount == pre.max_amount
}

/// Sum the rates of all live generators, one total per resource kind.
pub fn compute_rate_sums(buildings: &Vec<PlacedBuilding>) -> (r: (i128, i128, i128))
    requires
        forall|i: int| 0 <= i < buildings@.len() ==> (#[trigger] buildings@[i]).wf(),
    ensures
        r.0 == rate_sum(buildings@, ResourceType::Food),
        r.1 == rate_sum(buildings@, ResourceType::Wood),
        r.2 == rate_sum(buildings@, ResourceType::Stone),
{
    let mut food: i128 = 0;
    let mut wood: i128 = 0;
    let mut stone: i128 = 0;
    let mut i: usize = 0;
    while i < buildings.len()
        invariant
            i <= buildings@.len(),
            forall|k: int| 0 <= k < buildings@.len() ==> (#[trigger] buildings@[k]).wf(),
            food == rate_sum(buildings@.take(i as int), ResourceType::Food),
            wood == rate_sum(buildings@.take(i as int), ResourceType::Wood),
            stone == rate_sum(buildings@.take(i as int), ResourceType::Stone),
            0 <= food <= i as int * i32::MAX as int,
            0 <= wood <= i as int * i32::MAX as int,
            0 <= stone <= i as int * i32::MAX as int,
        decreases buildings@.len() - i,
    {
        proof {
            assert(buildings@.take(i as int + 1).drop_last() =~= buildings@.take(i as int));
            assert(buildings@.take(i as int + 1).last() == buildings@[i as int]);
        }
        if let Some(g) = buildings[i].generator {
            match g.resource_type {
                ResourceType::Food => {
                    food = food + g.rate as i128;
                },
                ResourceType::Wood => {
                    wood = wood + g.rate as i128;
                },
                ResourceType::Stone => {
                    stone = stone + g.rate as i128;
                },
            }
        }
        i = i + 1;
    }
    proof {
        assert(buildings@.take(buildings@.len() as int) =~= buildings@);
    }
    (food, wood, stone)
}

/// Accrue one pool for `elapsed` whole seconds at summed rate
/// `rate_sum`.
fn accrue_pool(pool: &mut ResourceInfo, rate_sum: i128, elapsed: i128)
    requires
        old(pool).wf(),
        0 <= rate_sum,
        1 <= elapsed <= 0x2_0000_0000_0000_0000i128,
    ensures
        (*final(pool)).wf(),
        *final(pool) == pool_after(*old(pool), rate_sum as int, elapsed as int),
{
    let needed: i128 = (pool.max_amount as i128) - (pool.amount as i128);
    if rate_sum >= needed {
        proof {
            assert(rate_sum as int * elapsed as int >= rate_sum as int * 1) by (nonlinear_arith)
                requires
                    elapsed as int >= 1,
                    rate_sum as int >= 0,
            ;
        }
        pool.amount = pool.max_amount;
    } else {
        proof {
            assert(rate_sum as int * elapsed as int <= 0x8000_0000 * 0x2_0000_0000_0000_0000)
                by (nonlinear_arith)
                requires
                    0 <= rate_sum as int <= 0x8000_0000,
                    1 <= elapsed as int <= 0x2_0000_0000_0000_0000,
            ;
            assert(rate_sum as int * elapsed as int >= 0) by (nonlinear_arith)
                requires
                    rate_sum as int >= 0,
                    elapsed as int >= 1,
            ;
        }
        let gain: i128 = rate_sum * elapsed;
        if gain >= needed {
            pool.amount = pool.max_amount;
        } else {
            pool.amount = pool.amount + (gain as i32);
        }
    }
    pool.rate = if rate_sum >= i32::MAX as i128 {
        i32::MAX
    } else {
        rate_sum as i32
    };
}

/// The accrual system, run once per simulation tick.
pub struct ResourceSystem {}

impl ResourceSystem {
    /// Advance the ledger to wall-clock second `now`.
    ///
    /// When no whole second has elapsed (including negative clock skew)
    /// the ledger is left untouched and the boundary does not advance;
    /// otherwise each pool gains exactly `min(max - amount, rate * e)`.
    pub fn run(
        &mut self,
        buildings: &Vec<PlacedBuilding>,
        stats: &mut PlayerStats,
        now: i64,
    )
        requires
            old(stats).wf(),
            forall|i: int| 0 <= i < buildings@.len() ==> (#[trigger] buildings@[i]).wf(),
        ensures
            (*final(stats)).wf(),
            *final(stats) == stats_after(*old(stats), buildings@, now),
            now as int - old(stats).next_refresh as int <= 0 ==> *final(stats) == *old(stats),
            now as int - old(stats).next_refresh as int >= 1 ==> {
                let e = now as int - old(stats).next_refresh as int;
                &&& accrues_exactly(
                    old(stats).food,
                    (*final(stats)).food,
                    rate_sum(buildings@, ResourceType::Food),
                    e,
                )
                &&& accrues_exactly(
                    old(stats).wood,
                    (*final(stats)).wood,
                    rate_sum(buildings@, ResourceType::Wood),
                    e,
                )
                &&& accrues_exactly(
                    old(stats).stone,
                    (*final(stats)).stone,
                    rate_sum(buildings@, ResourceType::Stone),
                    e,
                )
                &&& (*final(stats)).next_refresh == now
            },
    {
        let elapsed: i128 = (now as i128) - (stats.next_refresh as i128);
        if elapsed > 0 {
            proof {
                lemma_rate_sum_bounds(buildings@, ResourceType::Food);
                lemma_rate_sum_bounds(buildings@, ResourceType::Wood);
                lemma_rate_sum_bounds(buildings@, ResourceType::Stone);
            }
            let sums = compute_rate_sums(buildings);
            accrue_pool(&mut stats.food, sums.0, elapsed);
            accrue_pool(&mut stats.wood, sums.1, elapsed);
            accrue_pool(&mut stats.stone, sums.2, elapsed);
            stats.next_refresh = now;
        }
    }
}

} // verus!
