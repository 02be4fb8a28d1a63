//! The decision logic behind each interaction mode: catalog browsing,
//! placement targeting, and building inspection/upgrade. Each step
//! function consumes one player intent together with the catalog,
//! ledger, grid, and registry state, and returns the mode's outcome;
//! drawing is left entirely to a presentation layer.

use vstd::prelude::*;

use crate::catalog::{detail_index_of, BuildingDetail, ConstructionManifest};
use crate::components::{Building, Generator, PlacedBuilding, PlayerStats, ResourceInfo};
use crate::control::Intent;
use crate::grid::{
    cursor_down, cursor_left, cursor_right, cursor_up, in_bounds, GameMap, MAP_HEIGHT,
    MAP_PADDING_LEFT, MAP_PADDING_UP, MAP_WIDTH,
};
use crate::rect::{rects_intersect, Rect};
use crate::utils::{
    consume_resource, food_cost, requirements_check, requirements_spec, stone_cost,
    upgrade_building, wood_cost,
};

verus! {

#[derive(Clone, Copy, Debug, PartialEq, Eq, Structural)]
pub enum ConstructionMenuResult {
    Escape,
    NoSelection { selected_idx: usize },
    Selected { selected_idx: usize },
}

#[derive(Clone, Copy, Debug, PartialEq, Eq, Structural)]
pub enum ConstructionSpotSelectingResult {
    Escape,
    NoSelection { selected_idx: usize, x: i32, y: i32 },
    Selected { selected_idx: usize, x: i32, y: i32 },
}

#[derive(Clone, Copy, Debug, PartialEq, Eq, Structural)]
pub enum ConstructionSelectingResult {
    Escape,
    NoSelection { x: i32, y: i32 },
    Selected { selected_idx: usize, x: i32, y: i32 },
}

/// A placement is valid iff its footprint overlaps no existing
/// building's footprint. The occupancy bitmap plays no part here.
pub open spec fn valid_placement_spec(bs: Seq<PlacedBuilding>, target: Rect) -> bool {
    forall|i: int| 0 <= i < bs.len() ==> !rects_intersect(target, (#[trigger] bs[i]).building.rect)
}

/// Decide whether `target` may be placed among the existing buildings.
pub fn is_valid_placement(buildings: &Vec<PlacedBuilding>, target: &Rect) -> (r: bool)
    ensures
        r == valid_placement_spec(buildings@, *target),
{
    let mut i: usize = 0;
    while i < buildings.len()
        invariant
            i <= buildings@.len(),
            forall|j: int|
                0 <= j < i as int ==> !rects_intersect(
                    *target,
                    (#[trigger] buildings@[j]).building.rect,
                ),
        decreases buildings@.len() - i,
    {
        if target.intersect(&buildings[i].building.rect) {
            return false;
        }
        i = i + 1;
    }
    true
}

/// The outcome of one browsing step in the construction menu:
/// cancel leaves the menu; up and down move the selection with
/// wraparound; confirm selects the entry iff the ledger satisfies its
/// level-0 requirement set; anything else changes nothing.
pub open spec fn menu_step_spec(
    manifest: ConstructionManifest,
    stats: PlayerStats,
    selected_idx: usize,
    intent: Option<Intent>,
) -> ConstructionMenuResult {
    let len = manifest.buildings@.len() as int;
    if len == 0 {
        match intent {
            Some(Intent::Cancel) => ConstructionMenuResult::Escape,
            _ => ConstructionMenuResult::NoSelection { selected_idx },
        }
    } else {
        match intent {
            Some(Intent::Cancel) => ConstructionMenuResult::Escape,
            Some(Intent::Confirm) => if requirements_spec(
                stats,
                None,
                manifest.buildings@[selected_idx as int],
                0,
            ) {
                ConstructionMenuResult::Selected { selected_idx }
            } else {
                ConstructionMenuResult::NoSelection { selected_idx }
            },
            Some(Intent::Up) => ConstructionMenuResult::NoSelection {
                selected_idx: if selected_idx == 0 {
                    (len - 1) as usize
                } else {
                    (selected_idx - 1) as usize
                },
            },
            Some(Intent::Down) => ConstructionMenuResult::NoSelection {
                selected_idx: ((selected_idx + 1) as int % len) as usize,
            },
            _ => ConstructionMenuResult::NoSelection { selected_idx },
        }
    }
}

/// One step of the construction menu.
pub fn construction_menu_step(
    manifest: &ConstructionManifest,
    stats: &PlayerStats,
    selected_idx: usize,
    intent: Option<Intent>,
) -> (r: ConstructionMenuResult)
    requires
        manifest.wf(),
        selected_idx < manifest.buildings@.len() || (manifest.buildings@.len() == 0
            && selected_idx == 0),
    ensures
        r == menu_step_spec(*manifest, *stats, selected_idx, intent),
        r matches ConstructionMenuResult::NoSelection { selected_idx: i } ==> i
            < manifest.buildings@.len() || (manifest.buildings@.len() == 0 && i == 0),
        r matches ConstructionMenuResult::Selected { selected_idx: i } ==> i
            < manifest.buildings@.len(),
{
    if manifest.buildings.len() == 0 {
        return match intent {
            Some(Intent::Cancel) => ConstructionMenuResult::Escape,
            _ => ConstructionMenuResult::NoSelection { selected_idx },
        };
    }
    match intent {
        Some(Intent::Cancel) => ConstructionMenuResult::Escape,
        Some(Intent::Confirm) => {
            let detail = &manifest.buildings[selected_idx];
            if requirements_check(stats, None, detail, 0) {
                ConstructionMenuResult::Selected { selected_idx }
            } else {
                ConstructionMenuResult::NoSelection { selected_idx }
            }
        },
        Some(Intent::Up) => {
            let next: usize = if selected_idx == 0 {
                manifest.buildings.len() - 1
            } else {
                selected_idx - 1
            };
            ConstructionMenuResult::NoSelection { selected_idx: next }
        },
        Some(Intent::Down) => {
            let next: usize = (selected_idx + 1) % manifest.buildings.len();
            ConstructionMenuResult::NoSelection { selected_idx: next }
        },
        _ => ConstructionMenuResult::NoSelection { selected_idx },
    }
}

/// The footprint rectangle of `detail` anchored at `(x, y)`.
pub open spec fn target_rect(detail: BuildingDetail, x: i32, y: i32) -> Rect {
    Rect { x1: x, y1: y, x2: (x + detail.width) as i32, y2: (y + detail.height) as i32 }
}

/// The outcome of one placement-targeting step: cancel returns to the
/// menu; arrows move the cursor one cell, clamped so the footprint stays
/// on the map; confirm selects the spot iff the placement is valid;
/// anything else changes nothing.
pub open spec fn spot_step_spec(
    manifest: ConstructionManifest,
    bs: Seq<PlacedBuilding>,
    selected_idx: usize,
    x: i32,
    y: i32,
    intent: Option<Intent>,
) -> ConstructionSpotSelectingResult {
    let detail = manifest.buildings@[selected_idx as int];
    let valid = valid_placement_spec(bs, target_rect(detail, x, y));
    match intent {
        Some(Intent::Cancel) => ConstructionSpotSelectingResult::Escape,
        Some(Intent::Confirm) => if valid {
            ConstructionSpotSelectingResult::Selected { selected_idx, x, y }
        } else {
            ConstructionSpotSelectingResult::NoSelection { selected_idx, x, y }
        },
        Some(Intent::Up) => ConstructionSpotSelectingResult::NoSelection {
            selected_idx,
            x,
            y: if y - 1 > MAP_PADDING_UP as int {
                (y - 1) as i32
            } else {
                MAP_PADDING_UP as i32
            },
        },
        Some(Intent::Down) => ConstructionSpotSelectingResult::NoSelection {
            selected_idx,
            x,
            y: if y + 1 < MAP_PADDING_UP as int + MAP_HEIGHT as int - detail.height {
                (y + 1) as i32
            } else {
                (MAP_PADDING_UP as int + MAP_HEIGHT as int - detail.height) as i32
            },
        },
        Some(Intent::Left) => ConstructionSpotSelectingResult::NoSelection {
            selected_idx,
            x: if x - 1 > MAP_PADDING_LEFT as int {
                (x - 1) as i32
            } else {
                MAP_PADDING_LEFT as i32
            },
            y,
        },
        Some(Intent::Right) => ConstructionSpotSelectingResult::NoSelection {
            selected_idx,
            x: if x + 1 < MAP_PADDING_LEFT as int + MAP_WIDTH as int - detail.width {
                (x + 1) as i32
            } else {
                (MAP_PADDING_LEFT as int + MAP_WIDTH as int - detail.width) as i32
            },
            y,
        },
        _ => ConstructionSpotSelectingResult::NoSelection { selected_idx, x, y },
    }
}

/// One step of placement targeting.
pub fn construction_spot_step(
    manifest: &ConstructionManifest,
    buildings: &Vec<PlacedBuilding>,
    selected_idx: usize,
    x: i32,
    y: i32,
    intent: Option<Intent>,
) -> (r: ConstructionSpotSelectingResult)
    requires
        manifest.wf(),
        selected_idx < manifest.buildings@.len(),
        in_bounds(x as int, y as int),
    ensures
        r == spot_step_spec(*manifest, buildings@, selected_idx, x, y, intent),
        r matches ConstructionSpotSelectingResult::NoSelection { selected_idx: i, x: rx, y: ry }
            ==> i == selected_idx && in_bounds(rx as int, ry as int),
        r matches ConstructionSpotSelectingResult::Selected { selected_idx: i, x: rx, y: ry }
            ==> i == selected_idx && rx == x && ry == y,
{
    let detail = &manifest.buildings[selected_idx];
    match intent {
        Some(Intent::Cancel) => ConstructionSpotSelectingResult::Escape,
        Some(Intent::Confirm) => {
            let spot = Rect::new(x, y, detail.width, detail.height);
            if is_valid_placement(buildings, &spot) {
                ConstructionSpotSelectingResult::Selected { selected_idx, x, y }
            } else {
                ConstructionSpotSelectingResult::NoSelection { selected_idx, x, y }
            }
        },
        Some(Intent::Up) => {
            let bound: i32 = MAP_PADDING_UP as i32;
            let ny: i32 = if y - 1 > bound {
                y - 1
            } else {
                bound
            };
            ConstructionSpotSelectingResult::NoSelection { selected_idx, x, y: ny }
        },
        Some(Intent::Down) => {
            let bound: i32 = (MAP_PADDING_UP + MAP_HEIGHT) as i32 - detail.height;
            let ny: i32 = if y + 1 < bound {
                y + 1
            } else {
                bound
            };
            ConstructionSpotSelectingResult::NoSelection { selected_idx, x, y: ny }
        },
        Some(Intent::Left) => {
            let bound: i32 = MAP_PADDING_LEFT as i32;
            let nx: i32 = if x - 1 > bound {
                x - 1
            } else {
                bound
            };
            ConstructionSpotSelectingResult::NoSelection { selected_idx, x: nx, y }
        },
        Some(Intent::Right) => {
            let bound: i32 = (MAP_PADDING_LEFT + MAP_WIDTH) as i32 - detail.width;
            let nx: i32 = if x + 1 < bound {
                x + 1
            } else {
                bound
            };
            ConstructionSpotSelectingResult::NoSelection { selected_idx, x: nx, y }
        },
        _ => ConstructionSpotSelectingResult::NoSelection { selected_idx, x, y },
    }
}

/// The outcome of one inspection-cursor step: cancel leaves inspection;
/// arrows jump the cursor to the nearest occupied cell in that direction
/// along the row-major scan, staying put if none exists before the grid
/// edge; anything else changes nothing.
pub open spec fn selecting_step_spec(
    map: GameMap,
    x: i32,
    y: i32,
    intent: Option<Intent>,
) -> ConstructionSelectingResult {
    match intent {
        Some(Intent::Cancel) => ConstructionSelectingResult::Escape,
        Some(Intent::Up) => {
            let p = cursor_up(map.occupied@, x, y);
            ConstructionSelectingResult::NoSelection { x: p.0, y: p.1 }
        },
        Some(Intent::Down) => {
            let p = cursor_down(map.occupied@, x, y);
            ConstructionSelectingResult::NoSelection { x: p.0, y: p.1 }
        },
        Some(Intent::Left) => {
            let p = cursor_left(map.occupied@, x, y);
            ConstructionSelectingResult::NoSelection { x: p.0, y: p.1 }
        },
        Some(Intent::Right) => {
            let p = cursor_right(map.occupied@, x, y);
            ConstructionSelectingResult::NoSelection { x: p.0, y: p.1 }
        },
        _ => ConstructionSelectingResult::NoSelection { x, y },
    }
}

/// One step of the inspection cursor.
pub fn construction_selecting_step(
    map: &GameMap,
    x: i32,
    y: i32,
    intent: Option<Intent>,
) -> (r: ConstructionSelectingResult)
    requires
        map.wf(),
        in_bounds(x as int, y as int),
    ensures
        r == selecting_step_spec(*map, x, y, intent),
        r matches ConstructionSelectingResult::NoSelection { x: rx, y: ry } ==> in_bounds(
            rx as int,
            ry as int,
        ),
{
    match intent {
        Some(Intent::Cancel) => ConstructionSelectingResult::Escape,
        Some(Intent::Up) => {
            let p = map.nearest_occupied_up(x, y);
            ConstructionSelectingResult::NoSelection { x: p.0, y: p.1 }
        },
        Some(Intent::Down) => {
            let p = map.nearest_occupied_down(x, y);
            ConstructionSelectingResult::NoSelection { x: p.0, y: p.1 }
        },
        Some(Intent::Left) => {
            let p = map.nearest_occupied_left(x, y);
            ConstructionSelectingResult::NoSelection { x: p.0, y: p.1 }
        },
        Some(Intent::Right) => {
            let p = map.nearest_occupied_right(x, y);
            ConstructionSelectingResult::NoSelection { x: p.0, y: p.1 }
        },
        _ => ConstructionSelectingResult::NoSelection { x, y },
    }
}

/// The first registry index whose building is anchored at `(x, y)`.
pub open spec fn anchor_index(bs: Seq<PlacedBuilding>, x: i32, y: i32) -> Option<int>
    decreases bs.len(),
{
    if bs.len() == 0 {
        None
    } else if bs[0].building.rect.x1 == x && bs[0].building.rect.y1 == y {
        Some(0)
    } else {
        match anchor_index(bs.drop_first(), x, y) {
            Some(i) => Some(i + 1),
            None => None,
        }
    }
}

/// `anchor_index` returns an in-range index anchored at the cursor.
pub proof fn lemma_anchor_index_in_range(bs: Seq<PlacedBuilding>, x: i32, y: i32)
    ensures
        anchor_index(bs, x, y) matches Some(i) ==> 0 <= i < bs.len() && bs[i].building.rect.x1
            == x && bs[i].building.rect.y1 == y,
    decreases bs.len(),
{
    if bs.len() > 0 && !(bs[0].building.rect.x1 == x && bs[0].building.rect.y1 == y) {
        lemma_anchor_index_in_range(bs.drop_first(), x, y);
    }
}

proof fn lemma_anchor_index_first_match(bs: Seq<PlacedBuilding>, x: i32, y: i32, i: int)
    requires
        0 <= i < bs.len(),
        bs[i].building.rect.x1 == x && bs[i].building.rect.y1 == y,
        forall|j: int|
            0 <= j < i ==> !((#[trigger] bs[j]).building.rect.x1 == x && bs[j].building.rect.y1
                == y),
    ensures
        anchor_index(bs, x, y) == Some(i),
    decreases i,
{
    if i > 0 {
        lemma_anchor_index_first_match(bs.drop_first(), x, y, i - 1);
    }
}

proof fn lemma_anchor_index_lower_bound(bs: Seq<PlacedBuilding>, x: i32, y: i32, i: int)
    requires
        0 <= i <= bs.len(),
        forall|j: int|
            0 <= j < i ==> !((#[trigger] bs[j]).building.rect.x1 == x && bs[j].building.rect.y1
                == y),
    ensures
        anchor_index(bs, x, y) matches Some(k) ==> i <= k,
    decreases i,
{
    lemma_anchor_index_in_range(bs, x, y);
    if i > 0 && bs.len() > 0 && !(bs[0].building.rect.x1 == x && bs[0].building.rect.y1 == y) {
        lemma_anchor_index_lower_bound(bs.drop_first(), x, y, i - 1);
    }
}

/// Find the registry index of the building anchored at `(x, y)`, if any.
pub fn find_building_at(buildings: &Vec<PlacedBuilding>, x: i32, y: i32) -> (r: Option<usize>)
    ensures
        r matches Some(i) ==> i < buildings@.len() && anchor_index(buildings@, x, y) == Some(
            i as int,
        ),
        r is None ==> anchor_index(buildings@, x, y) is None,
{
    proof {
        lemma_anchor_index_in_range(buildings@, x, y);
    }
    let mut i: usize = 0;
    while i < buildings.len()
        invariant
            i <= buildings@.len(),
            forall|j: int|
                0 <= j < i as int ==> !((#[trigger] buildings@[j]).building.rect.x1 == x
                    && buildings@[j].building.rect.y1 == y),
            anchor_index(buildings@, x, y) matches Some(k) ==> i as int <= k,
        decreases buildings@.len() - i,
    {
        if buildings[i].building.rect.x1 == x && buildings[i].building.rect.y1 == y {
            proof {
                lemma_anchor_index_first_match(buildings@, x, y, i as int);
            }
            return Some(i);
        }
        i = i + 1;
        proof {
            lemma_anchor_index_lower_bound(buildings@, x, y, i as int);
        }
    }
    None
}

/// The ledger after paying the costs of reaching `level` of `detail`.
pub open spec fn debited(stats: PlayerStats, detail: BuildingDetail, level: int) -> PlayerStats {
    PlayerStats {
        food: ResourceInfo {
            amount: (stats.food.amount - food_cost(detail, level)) as i32,
            ..stats.food
        },
        wood: ResourceInfo {
            amount: (stats.wood.amount - wood_cost(detail, level)) as i32,
            ..stats.wood
        },
        stone: ResourceInfo {
            amount: (stats.stone.amount - stone_cost(detail, level)) as i32,
            ..stats.stone
        },
        next_refresh: stats.next_refresh,
    }
}

/// `pb` advanced one level: the level steps up, and an attached
/// generator takes the new level's rate.
pub open spec fn upgraded(pb: PlacedBuilding, detail: BuildingDetail) -> PlacedBuilding {
    let next = pb.building.level + 1;
    PlacedBuilding {
        building: Building { rect: pb.building.rect, level: next as i32 },
        generator: match pb.generator {
            Some(g) => Some(
                Generator {
                    rate: detail.levels@[next as int].rate->Some_0,
                    resource_type: g.resource_type,
                },
            ),
            None => None,
        },
        ..pb
    }
}

/// Whether an upgrade intent at cursor `(x, y)` takes effect: a building
/// is anchored there, its catalog entry exists, and the ledger and
/// building satisfy the next level's requirement set.
pub open spec fn upgrade_applies(
    stats: PlayerStats,
    bs: Seq<PlacedBuilding>,
    manifest: ConstructionManifest,
    x: i32,
    y: i32,
) -> bool {
    anchor_index(bs, x, y) matches Some(i) && detail_index_of(
        manifest.buildings@,
        bs[i].name.name@,
    ) matches Some(j) && requirements_spec(
        stats,
        Some(bs[i].building),
        manifest.buildings@[j],
        bs[i].building.level + 1,
    )
}

/// The ledger and registry after an upgrade intent at `(x, y)`: when the
/// upgrade applies, the costs are debited and the building advances one
/// level; otherwise nothing changes.
pub open spec fn upgrade_outcome(
    stats: PlayerStats,
    bs: Seq<PlacedBuilding>,
    manifest: ConstructionManifest,
    x: i32,
    y: i32,
) -> (PlayerStats, Seq<PlacedBuilding>) {
    if upgrade_applies(stats, bs, manifest, x, y) {
        let i = anchor_index(bs, x, y)->Some_0;
        let j = detail_index_of(manifest.buildings@, bs[i].name.name@)->Some_0;
        let detail = manifest.buildings@[j];
        (
            debited(stats, detail, bs[i].building.level + 1),
            bs.update(i, upgraded(bs[i], detail)),
        )
    } else {
        (stats, bs)
    }
}

/// Apply an upgrade intent at cursor `(x, y)`: gate on
/// `requirements_check`, then debit the ledger and advance the building.
pub fn try_upgrade_at(
    stats: &mut PlayerStats,
    buildings: &mut Vec<PlacedBuilding>,
    manifest: &ConstructionManifest,
    x: i32,
    y: i32,
) -> (applied: bool)
    requires
        old(stats).wf(),
        manifest.wf(),
        forall|i: int|
            0 <= i < old(buildings)@.len() ==> crate::spawner::placed_wf(
                #[trigger] old(buildings)@[i],
                *manifest,
            ),
    ensures
        applied == upgrade_applies(*old(stats), old(buildings)@, *manifest, x, y),
        (*final(stats), (*final(buildings))@) == upgrade_outcome(
            *old(stats),
            old(buildings)@,
            *manifest,
            x,
            y,
        ),
        (*final(stats)).wf(),
        (*final(buildings))@.len() == old(buildings)@.len(),
        forall|i: int|
            0 <= i < old(buildings)@.len() ==> crate::spawner::placed_wf(
                #[trigger] (*final(buildings))@[i],
                *manifest,
            ),
{
    let found = find_building_at(buildings, x, y);
    let i = match found {
        Some(i) => i,
        None => {
            return false;
        },
    };
    let mut pb = buildings.remove(i);
    proof {
        crate::catalog::lemma_detail_index_of_in_range(manifest.buildings@, pb.name.name@);
    }
    let j = match manifest.find_detail(&pb.name.name) {
        Some(j) => j,
        None => {
            // Excluded by the registry invariant: every placed building
            // bears a catalog name.
            proof {
                assert(false);
            }
            return false;
        },
    };
    let detail = &manifest.buildings[j];
    let next_level = pb.building.level + 1;
    let ok = requirements_check(stats, Some(&pb.building), detail, next_level);
    if ok {
        consume_resource(stats, detail, next_level);
        upgrade_building(detail, &mut pb.building, &mut pb.generator, next_level);
        buildings.insert(i, pb);
        proof {
            assert(buildings@ =~= old(buildings)@.update(
                i as int,
                upgraded(old(buildings)@[i as int], manifest.buildings@[j as int]),
            ));
        }
        true
    } else {
        buildings.insert(i, pb);
        proof {
            assert(buildings@ =~= old(buildings)@);
        }
        false
    }
}

} // verus!
