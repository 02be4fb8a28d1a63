//! Unit tests for the geometry, accrual, evaluator, grid, catalog
//! validation, and spawn dispatch.

use aurorian::catalog::{BuildingDetail, ConstructionManifest, ConstructionRequirment, LevelDetail};
use aurorian::components::{
    Building, Generator, Name, PlacedBuilding, PlayerStats, Renderable, ResourceInfo,
    ResourceType,
};
use aurorian::grid::GameMap;
use aurorian::rect::Rect;
use aurorian::resource_system::ResourceSystem;
use aurorian::spawner::{spawn_farm, spawn_food_factory, spawn_kind_of, validate_manifest, SpawnKind};
use aurorian::utils::{consume_resource, requirements_check, upgrade_building};

fn level(rate: Option<i32>, requirements: Option<ConstructionRequirment>) -> LevelDetail {
    LevelDetail { rate, requirements }
}

fn entry(name: &str, width: i32, height: i32, levels: Vec<LevelDetail>) -> BuildingDetail {
    BuildingDetail {
        name: name.to_string(),
        width,
        height,
        fg: "WHITE".to_string(),
        bg: "BLACK".to_string(),
        glyph: '#',
        levels,
    }
}

fn fresh_stats(next_refresh: i64) -> PlayerStats {
    let pool = ResourceInfo { amount: 0, max_amount: 10000, rate: 0 };
    PlayerStats { food: pool, wood: pool, stone: pool, next_refresh }
}

fn placed(rect: Rect, generator: Option<Generator>) -> PlacedBuilding {
    PlacedBuilding {
        building: Building { rect, level: 0 },
        name: Name { name: "Farm".to_string() },
        renderable: Renderable {
            glyph: '#',
            fg: "WHITE".to_string(),
            bg: "BLACK".to_string(),
            render_order: 0,
        },
        generator,
    }
}

#[test]
fn rect_edge_touch_does_not_intersect() {
    let a = Rect::new(10, 10, 4, 4);
    let right_neighbor = Rect::new(14, 10, 4, 4);
    let below_neighbor = Rect::new(10, 14, 4, 4);
    assert!(!a.intersect(&right_neighbor));
    assert!(!right_neighbor.intersect(&a));
    assert!(!a.intersect(&below_neighbor));
    assert!(!below_neighbor.intersect(&a));
}

#[test]
fn rect_identical_always_intersect() {
    let a = Rect::new(10, 10, 4, 4);
    let b = Rect::new(10, 10, 4, 4);
    assert!(a.intersect(&b));
    assert!(b.intersect(&a));
}

#[test]
fn rect_overlap_is_symmetric() {
    let a = Rect::new(10, 10, 4, 4);
    let b = Rect::new(12, 12, 4, 4);
    let c = Rect::new(30, 30, 2, 2);
    assert_eq!(a.intersect(&b), b.intersect(&a));
    assert_eq!(a.intersect(&c), c.intersect(&a));
    assert!(a.intersect(&b));
    assert!(!a.intersect(&c));
}

#[test]
fn accrual_clamps_at_cap() {
    let mut stats = fresh_stats(0);
    stats.food.max_amount = 10;
    let buildings = vec![placed(
        Rect::new(10, 10, 4, 4),
        Some(Generator { rate: 3, resource_type: ResourceType::Food }),
    )];
    let mut sys = ResourceSystem {};
    sys.run(&buildings, &mut stats, 100);
    assert_eq!(stats.food.amount, 10);
    assert_eq!(stats.food.rate, 3);
}

#[test]
fn accrual_no_op_on_zero_or_negative_elapsed() {
    let mut stats = fresh_stats(1000);
    stats.food.amount = 7;
    let buildings = vec![placed(
        Rect::new(10, 10, 4, 4),
        Some(Generator { rate: 3, resource_type: ResourceType::Food }),
    )];
    let mut sys = ResourceSystem {};
    sys.run(&buildings, &mut stats, 1000);
    assert_eq!(stats.food.amount, 7);
    assert_eq!(stats.food.rate, 0);
    assert_eq!(stats.next_refresh, 1000);
    // Clock skew backwards is also a no-op, and the boundary stays.
    sys.run(&buildings, &mut stats, 900);
    assert_eq!(stats.food.amount, 7);
    assert_eq!(stats.next_refresh, 1000);
}

#[test]
fn accrual_sums_rates_per_kind() {
    let mut stats = fresh_stats(0);
    let buildings = vec![
        placed(
            Rect::new(10, 10, 4, 4),
            Some(Generator { rate: 2, resource_type: ResourceType::Food }),
        ),
        placed(
            Rect::new(20, 10, 4, 4),
            Some(Generator { rate: 5, resource_type: ResourceType::Wood }),
        ),
        placed(Rect::new(30, 10, 4, 4), None),
    ];
    let mut sys = ResourceSystem {};
    sys.run(&buildings, &mut stats, 4);
    assert_eq!(stats.food.amount, 8);
    assert_eq!(stats.wood.amount, 20);
    assert_eq!(stats.stone.amount, 0);
    assert_eq!(stats.food.rate, 2);
    assert_eq!(stats.wood.rate, 5);
    assert_eq!(stats.stone.rate, 0);
}

#[test]
fn requirements_check_exact_building_level() {
    let req = ConstructionRequirment {
        current_player_level: None,
        current_building_level: Some(1),
        food: None,
        wood: None,
        stone: None,
    };
    let detail = entry(
        "Farm",
        4,
        4,
        vec![level(None, None), level(None, None), level(None, Some(req))],
    );
    let stats = fresh_stats(0);
    let at_level_0 = Building { rect: Rect::new(10, 10, 4, 4), level: 0 };
    let at_level_1 = Building { rect: Rect::new(10, 10, 4, 4), level: 1 };
    let at_level_2 = Building { rect: Rect::new(10, 10, 4, 4), level: 2 };
    // Skipping a level (0 -> 2) fails whatever the ledger holds.
    assert!(!requirements_check(&stats, Some(&at_level_0), &detail, 2));
    assert!(requirements_check(&stats, Some(&at_level_1), &detail, 2));
    // "At least" is not enough: the demanded level is matched exactly.
    assert!(!requirements_check(&stats, Some(&at_level_2), &detail, 2));
    // No building instance at all fails a building-level demand.
    assert!(!requirements_check(&stats, None, &detail, 2));
}

#[test]
fn requirements_check_bounds_and_costs() {
    let req = ConstructionRequirment {
        current_player_level: None,
        current_building_level: None,
        food: Some(50),
        wood: Some(5),
        stone: None,
    };
    let detail = entry("Farm", 4, 4, vec![level(None, Some(req))]);
    let mut stats = fresh_stats(0);
    stats.food.amount = 40;
    stats.wood.amount = 5;
    // A target level beyond the catalog never satisfies.
    assert!(!requirements_check(&stats, None, &detail, 1));
    assert!(!requirements_check(&stats, None, &detail, 0));
    stats.food.amount = 50;
    assert!(requirements_check(&stats, None, &detail, 0));
    stats.wood.amount = 4;
    assert!(!requirements_check(&stats, None, &detail, 0));
}

#[test]
fn requirements_check_monotonic_in_resources() {
    let req = ConstructionRequirment {
        current_player_level: None,
        current_building_level: None,
        food: Some(30),
        wood: Some(10),
        stone: Some(1),
    };
    let detail = entry("Farm", 4, 4, vec![level(None, Some(req))]);
    let mut stats = fresh_stats(0);
    stats.food.amount = 30;
    stats.wood.amount = 10;
    stats.stone.amount = 1;
    assert!(requirements_check(&stats, None, &detail, 0));
    // Topping any pool up never turns satisfaction off.
    stats.food.amount = 9999;
    assert!(requirements_check(&stats, None, &detail, 0));
    stats.wood.amount = 10000;
    stats.stone.amount = 10000;
    assert!(requirements_check(&stats, None, &detail, 0));
}

#[test]
fn consume_and_upgrade_apply_exactly() {
    let req = ConstructionRequirment {
        current_player_level: None,
        current_building_level: Some(0),
        food: Some(50),
        wood: Some(7),
        stone: None,
    };
    let detail = entry("Farm", 4, 4, vec![level(Some(2), None), level(Some(9), Some(req))]);
    let mut stats = fresh_stats(0);
    stats.food.amount = 60;
    stats.wood.amount = 7;
    stats.stone.amount = 3;
    let mut building = Building { rect: Rect::new(10, 10, 4, 4), level: 0 };
    let mut generator = Some(Generator { rate: 2, resource_type: ResourceType::Food });
    assert!(requirements_check(&stats, Some(&building), &detail, 1));
    consume_resource(&mut stats, &detail, 1);
    assert_eq!(stats.food.amount, 10);
    assert_eq!(stats.wood.amount, 0);
    assert_eq!(stats.stone.amount, 3);
    upgrade_building(&detail, &mut building, &mut generator, 1);
    assert_eq!(building.level, 1);
    assert_eq!(generator.unwrap().rate, 9);
}

#[test]
fn upgrade_without_generator_keeps_none() {
    let detail = entry("Army", 4, 4, vec![level(None, None), level(None, None)]);
    let mut building = Building { rect: Rect::new(10, 10, 4, 4), level: 0 };
    let mut generator: Option<Generator> = None;
    upgrade_building(&detail, &mut building, &mut generator, 1);
    assert_eq!(building.level, 1);
    assert!(generator.is_none());
}

#[test]
fn grid_index_round_trip() {
    let map = GameMap::new();
    assert_eq!(map.xy_idx(1, 1), 0);
    assert_eq!(map.xy_idx(2, 1), 1);
    assert_eq!(map.xy_idx(1, 2), 148);
    assert_eq!(map.idx_xy(0), (1, 1));
    assert_eq!(map.idx_xy(148), (1, 2));
    assert_eq!(map.idx_xy(12431), (148, 84));
    let idx = map.xy_idx(75, 50);
    assert_eq!(map.idx_xy(idx), (75, 50));
}

#[test]
fn spawn_kind_dispatch_table() {
    assert_eq!(spawn_kind_of("Farm"), Some(SpawnKind::Farm));
    assert_eq!(spawn_kind_of("Food Factory"), Some(SpawnKind::FoodFactory));
    assert_eq!(spawn_kind_of("Army"), Some(SpawnKind::Army));
    assert_eq!(spawn_kind_of("Lumber Camp"), Some(SpawnKind::LumberCamp));
    assert_eq!(spawn_kind_of("Mining Camp"), Some(SpawnKind::MiningCamp));
    assert_eq!(spawn_kind_of("Castle"), None);
    assert_eq!(spawn_kind_of(""), None);
}

#[test]
fn spawn_marks_anchor_and_appends_instance() {
    let mut map = GameMap::new();
    let mut buildings: Vec<PlacedBuilding> = Vec::new();
    let farm = entry("Farm", 4, 4, vec![level(Some(2), None)]);
    spawn_farm(&mut map, &mut buildings, &farm, 75, 50);
    assert_eq!(buildings.len(), 1);
    let pb = &buildings[0];
    assert_eq!(pb.building.rect, Rect::new(75, 50, 4, 4));
    assert_eq!(pb.building.level, 0);
    assert_eq!(pb.name.name, "Farm");
    let gen = pb.generator.unwrap();
    assert_eq!(gen.rate, 2);
    assert!(gen.resource_type == ResourceType::Food);
    // Only the anchor cell is marked, not the rest of the footprint.
    assert!(map.occupied[map.xy_idx(75, 50)]);
    assert!(!map.occupied[map.xy_idx(76, 50)]);
    assert!(!map.occupied[map.xy_idx(75, 51)]);

    let factory = entry("Food Factory", 2, 2, vec![level(Some(3), None)]);
    spawn_food_factory(&mut map, &mut buildings, &factory, 10, 10);
    assert_eq!(buildings.len(), 2);
    assert!(buildings[1].generator.unwrap().resource_type == ResourceType::Food);
}

#[test]
fn validator_accepts_registered_catalog() {
    let manifest = ConstructionManifest {
        buildings: vec![
            entry("Farm", 4, 4, vec![level(Some(2), None)]),
            entry("Army", 3, 3, vec![level(None, None)]),
        ],
    };
    assert!(validate_manifest(&manifest));
}

#[test]
fn validator_rejects_malformed_catalogs() {
    // Unregistered name.
    let unknown = ConstructionManifest {
        buildings: vec![entry("Castle", 4, 4, vec![level(Some(2), None)])],
    };
    assert!(!validate_manifest(&unknown));
    // No levels at all.
    let no_levels = ConstructionManifest { buildings: vec![entry("Farm", 4, 4, vec![])] };
    assert!(!validate_manifest(&no_levels));
    // A generating kind with a level missing its rate.
    let missing_rate = ConstructionManifest {
        buildings: vec![entry("Farm", 4, 4, vec![level(Some(2), None), level(None, None)])],
    };
    assert!(!validate_manifest(&missing_rate));
    // A non-positive footprint.
    let flat = ConstructionManifest {
        buildings: vec![entry("Farm", 0, 4, vec![level(Some(2), None)])],
    };
    assert!(!validate_manifest(&flat));
    // A negative cost.
    let negative_cost = ConstructionRequirment {
        current_player_level: None,
        current_building_level: None,
        food: Some(-5),
        wood: None,
        stone: None,
    };
    let bad_cost = ConstructionManifest {
        buildings: vec![entry("Farm", 4, 4, vec![level(Some(2), Some(negative_cost))])],
    };
    assert!(!validate_manifest(&bad_cost));
    // Duplicate names.
    let dup = ConstructionManifest {
        buildings: vec![
            entry("Farm", 4, 4, vec![level(Some(2), None)]),
            entry("Farm", 2, 2, vec![level(Some(1), None)]),
        ],
    };
    assert!(!validate_manifest(&dup));
    // A level-0 requirement may not demand a prior building level.
    let self_req = ConstructionRequirment {
        current_player_level: None,
        current_building_level: Some(0),
        food: None,
        wood: None,
        stone: None,
    };
    let circular = ConstructionManifest {
        buildings: vec![entry("Farm", 4, 4, vec![level(Some(2), Some(self_req))])],
    };
    assert!(!validate_manifest(&circular));
}

/// Driving a tick against the real wall clock: the accrual boundary
/// lands on the clock's reading, far after the epoch-zero start.
#[test]
fn wall_clock_tick_advances_boundary() {
    let manifest = ConstructionManifest {
        buildings: vec![entry("Farm", 4, 4, vec![level(Some(2), None)])],
    };
    let mut state = aurorian::state::State::new(manifest, 10000, 10000, 10000, 1).unwrap();
    assert_eq!(state.stats.next_refresh, 0);
    state.tick_now(None);
    // The wall clock reads far past the epoch, so the first pass both
    // accrues (rates are still zero) and advances the boundary.
    assert!(state.stats.next_refresh > 1_600_000_000);
    assert_eq!(state.stats.food.amount, 0);
    assert!(matches!(state.runstate, aurorian::state::RunState::Idle));
}
