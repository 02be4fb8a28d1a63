//! Tests for the per-mode step functions and the idle input handler.

use aurorian::catalog::{BuildingDetail, ConstructionManifest, LevelDetail};
use aurorian::components::{PlayerStats, ResourceInfo};
use aurorian::control::{player_input, Intent};
use aurorian::grid::GameMap;
use aurorian::gui::{
    construction_menu_step, construction_selecting_step, construction_spot_step,
    ConstructionMenuResult, ConstructionSelectingResult, ConstructionSpotSelectingResult,
};
use aurorian::state::RunState;

fn entry(name: &str, width: i32, height: i32, rate: i32) -> BuildingDetail {
    BuildingDetail {
        name: name.to_string(),
        width,
        height,
        fg: "WHITE".to_string(),
        bg: "BLACK".to_string(),
        glyph: '#',
        levels: vec![LevelDetail { rate: Some(rate), requirements: None }],
    }
}

fn two_entry_manifest() -> ConstructionManifest {
    ConstructionManifest {
        buildings: vec![entry("Farm", 4, 4, 2), entry("Army", 3, 3, 0)],
    }
}

fn fresh_stats() -> PlayerStats {
    let pool = ResourceInfo { amount: 0, max_amount: 10000, rate: 0 };
    PlayerStats { food: pool, wood: pool, stone: pool, next_refresh: 0 }
}

#[test]
fn menu_selection_wraps_both_ways() {
    let manifest = two_entry_manifest();
    let stats = fresh_stats();
    assert_eq!(
        construction_menu_step(&manifest, &stats, 0, Some(Intent::Up)),
        ConstructionMenuResult::NoSelection { selected_idx: 1 }
    );
    assert_eq!(
        construction_menu_step(&manifest, &stats, 1, Some(Intent::Up)),
        ConstructionMenuResult::NoSelection { selected_idx: 0 }
    );
    assert_eq!(
        construction_menu_step(&manifest, &stats, 1, Some(Intent::Down)),
        ConstructionMenuResult::NoSelection { selected_idx: 0 }
    );
    assert_eq!(
        construction_menu_step(&manifest, &stats, 0, Some(Intent::Down)),
        ConstructionMenuResult::NoSelection { selected_idx: 1 }
    );
}

#[test]
fn menu_cancel_and_idle_inputs() {
    let manifest = two_entry_manifest();
    let stats = fresh_stats();
    assert_eq!(
        construction_menu_step(&manifest, &stats, 1, Some(Intent::Cancel)),
        ConstructionMenuResult::Escape
    );
    assert_eq!(
        construction_menu_step(&manifest, &stats, 1, None),
        ConstructionMenuResult::NoSelection { selected_idx: 1 }
    );
    assert_eq!(
        construction_menu_step(&manifest, &stats, 0, Some(Intent::Confirm)),
        ConstructionMenuResult::Selected { selected_idx: 0 }
    );
}

#[test]
fn menu_over_empty_catalog() {
    let manifest = ConstructionManifest { buildings: vec![] };
    let stats = fresh_stats();
    assert_eq!(
        construction_menu_step(&manifest, &stats, 0, Some(Intent::Confirm)),
        ConstructionMenuResult::NoSelection { selected_idx: 0 }
    );
    assert_eq!(
        construction_menu_step(&manifest, &stats, 0, Some(Intent::Down)),
        ConstructionMenuResult::NoSelection { selected_idx: 0 }
    );
    assert_eq!(
        construction_menu_step(&manifest, &stats, 0, Some(Intent::Cancel)),
        ConstructionMenuResult::Escape
    );
}

#[test]
fn spot_cursor_clamps_at_map_edges() {
    let manifest = two_entry_manifest();
    let buildings = Vec::new();
    // Up and left from the top-left corner stay put.
    assert_eq!(
        construction_spot_step(&manifest, &buildings, 0, 1, 1, Some(Intent::Up)),
        ConstructionSpotSelectingResult::NoSelection { selected_idx: 0, x: 1, y: 1 }
    );
    assert_eq!(
        construction_spot_step(&manifest, &buildings, 0, 1, 1, Some(Intent::Left)),
        ConstructionSpotSelectingResult::NoSelection { selected_idx: 0, x: 1, y: 1 }
    );
    // Down and right clamp so the 4x4 footprint stays on the map:
    // the map spans x in 1..=148 and y in 1..=84.
    assert_eq!(
        construction_spot_step(&manifest, &buildings, 0, 145, 81, Some(Intent::Down)),
        ConstructionSpotSelectingResult::NoSelection { selected_idx: 0, x: 145, y: 81 }
    );
    assert_eq!(
        construction_spot_step(&manifest, &buildings, 0, 145, 81, Some(Intent::Right)),
        ConstructionSpotSelectingResult::NoSelection { selected_idx: 0, x: 145, y: 81 }
    );
    // One cell in from the clamp boundary still moves.
    assert_eq!(
        construction_spot_step(&manifest, &buildings, 0, 140, 70, Some(Intent::Down)),
        ConstructionSpotSelectingResult::NoSelection { selected_idx: 0, x: 140, y: 71 }
    );
    assert_eq!(
        construction_spot_step(&manifest, &buildings, 0, 140, 70, Some(Intent::Right)),
        ConstructionSpotSelectingResult::NoSelection { selected_idx: 0, x: 141, y: 70 }
    );
}

#[test]
fn spot_confirm_on_empty_map_selects() {
    let manifest = two_entry_manifest();
    let buildings = Vec::new();
    assert_eq!(
        construction_spot_step(&manifest, &buildings, 0, 75, 50, Some(Intent::Confirm)),
        ConstructionSpotSelectingResult::Selected { selected_idx: 0, x: 75, y: 50 }
    );
    assert_eq!(
        construction_spot_step(&manifest, &buildings, 0, 75, 50, Some(Intent::Cancel)),
        ConstructionSpotSelectingResult::Escape
    );
}

#[test]
fn selecting_cursor_on_empty_bitmap_stays() {
    let map = GameMap::new();
    for intent in [Intent::Up, Intent::Down, Intent::Left, Intent::Right] {
        assert_eq!(
            construction_selecting_step(&map, 40, 40, Some(intent)),
            ConstructionSelectingResult::NoSelection { x: 40, y: 40 }
        );
    }
    assert_eq!(
        construction_selecting_step(&map, 40, 40, Some(Intent::Cancel)),
        ConstructionSelectingResult::Escape
    );
}

#[test]
fn selecting_cursor_jumps_to_marked_cell() {
    let mut map = GameMap::new();
    map.mark_occupied(10, 5);
    // Scanning down-right from (9, 5) reaches the anchor at (10, 5).
    assert_eq!(
        construction_selecting_step(&map, 9, 5, Some(Intent::Right)),
        ConstructionSelectingResult::NoSelection { x: 10, y: 5 }
    );
    // Scanning up-left from (11, 5) reaches it too.
    assert_eq!(
        construction_selecting_step(&map, 11, 5, Some(Intent::Left)),
        ConstructionSelectingResult::NoSelection { x: 10, y: 5 }
    );
    // From a row below, moving up lands on it (row-major backward scan).
    assert_eq!(
        construction_selecting_step(&map, 140, 6, Some(Intent::Up)),
        ConstructionSelectingResult::NoSelection { x: 10, y: 5 }
    );
    // From a row above, moving down lands on it (row-major forward scan).
    assert_eq!(
        construction_selecting_step(&map, 1, 4, Some(Intent::Down)),
        ConstructionSelectingResult::NoSelection { x: 10, y: 5 }
    );
}

#[test]
fn idle_input_handles_select_and_inspect() {
    let map = GameMap::new();
    assert_eq!(
        player_input(&map, Some(Intent::Select)),
        RunState::ConstructionMenu { selected_idx: 0 }
    );
    // Nothing placed: the inspection trigger stays idle.
    assert_eq!(player_input(&map, Some(Intent::Inspect)), RunState::Idle);
    assert_eq!(player_input(&map, None), RunState::Idle);
    assert_eq!(player_input(&map, Some(Intent::Confirm)), RunState::Idle);

    let mut marked = GameMap::new();
    marked.mark_occupied(33, 20);
    assert_eq!(
        player_input(&marked, Some(Intent::Inspect)),
        RunState::ConstructionSelecting { x: 33, y: 20 }
    );
}
