//! The upgrade evaluator: deciding whether a catalog level can be built
//! or upgraded to, debiting its resource costs, and advancing a building
//! to the new level.

use vstd::prelude::*;

use crate::catalog::BuildingDetail;
use crate::components::{Building, Generator, PlayerStats, ResourceInfo};

verus! {

/// The requirement-satisfaction rule for reaching `next_level` of
/// `detail` with ledger `stats` and, for upgrades, the placed building
/// `building`:
/// the level must exist; a demanded current building level must be
/// matched exactly (upgrades are sequential, one level at a time); and
/// each specified resource cost must not exceed the pool's amount.
/// Absent requirement fields impose no constraint, and the
/// `current_player_level` field is not evaluated (no player-leveling
/// system exists).
pub open spec fn requirements_spec(
    stats: PlayerStats,
    building: Option<Building>,
    detail: BuildingDetail,
    next_level: int,
) -> bool {
    &&& 0 <= next_level < detail.levels@.len()
    &&& (detail.levels@[next_level].requirements matches Some(req) ==> {
        &&& (req.current_building_level matches Some(need) ==> building matches Some(b)
            && b.level == need)
        &&& (req.food matches Some(c) ==> stats.food.amount >= c)
        &&& (req.wood matches Some(c) ==> stats.wood.amount >= c)
        &&& (req.stone matches Some(c) ==> stats.stone.amount >= c)
    })
}

/// The building argument of `requirements_check`, copied out of its
/// reference.
pub open spec fn copied_building(b: Option<&Building>) -> Option<Building> {
    match b {
        Some(x) => Some(*x),
        None => None,
    }
}

/// The food cost that `detail` specifies for reaching `level`, or zero
/// if unspecified.
pub open spec fn food_cost(detail: BuildingDetail, level: int) -> int {
    match detail.levels@[level].requirements {
        Some(req) => match req.food {
            Some(c) => c as int,
            None => 0,
        },
        None => 0,
    }
}

/// The wood cost that `detail` specifies for reaching `level`, or zero
/// if unspecified.
pub open spec fn wood_cost(detail: BuildingDetail, level: int) -> int {
    match detail.levels@[level].requirements {
        Some(req) => match req.wood {
            Some(c) => c as int,
            None => 0,
        },
        None => 0,
    }
}

/// The stone cost that `detail` specifies for reaching `level`, or zero
/// if unspecified.
pub open spec fn stone_cost(detail: BuildingDetail, level: int) -> int {
    match detail.levels@[level].requirements {
        Some(req) => match req.stone {
            Some(c) => c as int,
            None => 0,
        },
        None => 0,
    }
}

/// Whether the ledger can pay every resource cost of reaching `level`.
pub open spec fn costs_covered(stats: PlayerStats, detail: BuildingDetail, level: int) -> bool {
    &&& stats.food.amount >= food_cost(detail, level)
    &&& stats.wood.amount >= wood_cost(detail, level)
    &&& stats.stone.amount >= stone_cost(detail, level)
}

/// Decide whether `next_level` of `detail` may be built or upgraded to.
pub fn requirements_check(
    stats: &PlayerStats,
    building: Option<&Building>,
    detail: &BuildingDetail,
    next_level: i32,
) -> (r: bool)
    requires
        0 <= next_level,
        detail.levels@.len() <= i32::MAX as int,
    ensures
        r == requirements_spec(*stats, copied_building(building), *detail, next_level as int),
{
    if next_level >= detail.levels.len() as i32 {
        return false;
    }
    if let Some(req) = detail.levels[next_level as usize].requirements {
        if let Some(req_building_level) = req.current_building_level {
            if let Some(b) = building {
                if b.level != req_building_level {
                    return false;
                }
            } else {
                return false;
            }
        }
        if let Some(req_food) = req.food {
            if stats.food.amount < req_food {
                return false;
            }
        }
        if let Some(req_wood) = req.wood {
            if stats.wood.amount < req_wood {
                return false;
            }
        }
        if let Some(req_stone) = req.stone {
            if stats.stone.amount < req_stone {
                return false;
            }
        }
    }
    true
}

/// Debit the resource costs of reaching `next_level` from the ledger.
/// Callers must have gated the call on `requirements_check`, which is
/// what guarantees the pools can pay.
pub fn consume_resource(stats: &mut PlayerStats, detail: &BuildingDetail, next_level: i32)
    requires
        detail.wf(),
        0 <= next_level < detail.levels@.len(),
        old(stats).wf(),
        costs_covered(*old(stats), *detail, next_level as int),
    ensures
        (*final(stats)).wf(),
        (*final(stats)).food == (ResourceInfo {
            amount: (old(stats).food.amount - food_cost(*detail, next_level as int)) as i32,
            ..old(stats).food
        }),
        (*final(stats)).wood == (ResourceInfo {
            amount: (old(stats).wood.amount - wood_cost(*detail, next_level as int)) as i32,
            ..old(stats).wood
        }),
        (*final(stats)).stone == (ResourceInfo {
            amount: (old(stats).stone.amount - stone_cost(*detail, next_level as int)) as i32,
            ..old(stats).stone
        }),
        (*final(stats)).next_refresh == old(stats).next_refresh,
{
    if let Some(req) = detail.levels[next_level as usize].requirements {
        if let Some(req_food) = req.food {
            stats.food.amount = stats.food.amount - req_food;
        }
        if let Some(req_wood) = req.wood {
            stats.wood.amount = stats.wood.amount - req_wood;
        }
        if let Some(req_stone) = req.stone {
            stats.stone.amount = stats.stone.amount - req_stone;
        }
    }
}

/// Advance a building to `next_level`; if it carries a generator, set
/// the generator's rate to the new level's rate. A generator on a level
/// without a rate is a catalog-authoring error, excluded here by
/// precondition.
pub fn upgrade_building(
    detail: &BuildingDetail,
    building: &mut Building,
    generator: &mut Option<Generator>,
    next_level: i32,
)
    requires
        0 <= next_level < detail.levels@.len(),
        (*old(generator)) matches Some(_) ==> detail.levels@[next_level as int].rate matches Some(_),
    ensures
        (*final(building)).level == next_level,
        (*final(building)).rect == (*old(building)).rect,
        (*old(generator)) is None ==> (*final(generator)) is None,
        (*old(generator)) matches Some(g) ==> (*final(generator)) == Some(
            Generator {
                rate: detail.levels@[next_level as int].rate->Some_0,
                resource_type: g.resource_type,
            },
        ),
{
    building.level = next_level;
    match generator {
        Some(gen) => {
            gen.rate = detail.levels[next_level as usize].rate.unwrap();
        },
        None => {},
    }
}

/// Requirement satisfaction is monotonic in the ledger: topping up any
/// pool's amount, all else fixed, never turns a satisfied check into an
/// unsatisfied one.
pub proof fn lemma_requirements_monotonic(
    poorer: PlayerStats,
    richer: PlayerStats,
    building: Option<Building>,
    detail: BuildingDetail,
    next_level: int,
)
    requires
        richer.food.amount >= poorer.food.amount,
        richer.wood.amount >= poorer.wood.amount,
        richer.stone.amount >= poorer.stone.amount,
        requirements_spec(poorer, building, detail, next_level),
    ensures
        requirements_spec(richer, building, detail, next_level),
{
}

/// If reaching `target` demands some exact current building level and
/// the building is at a different level, the check fails whatever the
/// ledger holds.
pub proof fn lemma_wrong_level_fails(
    stats: PlayerStats,
    building: Building,
    detail: BuildingDetail,
    target: int,
)
    requires
        0 <= target < detail.levels@.len(),
        detail.levels@[target].requirements matches Some(req) && req.current_building_level
            matches Some(need) && building.level != need,
    ensures
        !requirements_spec(stats, Some(building), detail, target),
{
}

/// Upgrades are sequential: when reaching level `L + 2` demands a
/// building at level `L + 1`, a building still at level `L` fails the
/// check regardless of resources, so no level can be skipped.
pub proof fn lemma_skip_level_always_fails(
    stats: PlayerStats,
    building: Building,
    detail: BuildingDetail,
)
    requires
        0 <= building.level,
        building.level + 2 < detail.levels@.len(),
        building.level + 1 <= i32::MAX,
        detail.levels@[building.level + 2].requirements matches Some(req)
            && req.current_building_level == Some((building.level + 1) as i32),
    ensures
        !requirements_spec(stats, Some(building), detail, building.level + 2),
{
    lemma_wrong_level_fails(stats, building, detail, building.level + 2);
}

} // verus!
