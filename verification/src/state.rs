//! The simulation core: the interaction mode, the game state that owns
//! the catalog, ledger, grid and registry, and the per-tick step that
//! first accrues resources and then makes exactly one state-machine
//! transition from at most one player intent.

use vstd::prelude::*;

use crate::catalog::ConstructionManifest;
use crate::components::{PlacedBuilding, PlayerStats};
use crate::control::{player_input, player_input_spec, Intent};
use crate::grid::{in_bounds, GameMap, WINDOW_HEIGHT, WINDOW_WIDTH};
use crate::gui::{
    construction_menu_step, construction_selecting_step, construction_spot_step, try_upgrade_at,
    upgrade_outcome, ConstructionMenuResult, ConstructionSelectingResult,
    ConstructionSpotSelectingResult,
};
use crate::gui::{menu_step_spec, selecting_step_spec, spot_step_spec};
use crate::resource_system::{stats_after, ResourceSystem};
use crate::spawner::{
    get_spawner, manifest_ready, placed_wf, spawn_building, spawn_kind_spec, spawn_post,
};

verus! {

/// The interaction mode: exactly one is active at a time, and only the
/// simulation tick changes it.
#[derive(Clone, Copy, Debug, PartialEq, Eq, Structural)]
pub enum RunState {
    PreRun,
    Idle,
    ConstructionMenu { selected_idx: usize },
    ConstructionSpotSelecting { selected_idx: usize, x: i32, y: i32 },
    ConstructionSelecting { x: i32, y: i32 },
}

/// What each mode's bookkeeping data must satisfy: menu selections
/// index the catalog (or rest at zero over an empty catalog), and
/// cursors stay on playable cells.
pub open spec fn runstate_wf(rs: RunState, m: ConstructionManifest) -> bool {
    match rs {
        RunState::PreRun => true,
        RunState::Idle => true,
        RunState::ConstructionMenu { selected_idx } => selected_idx < m.buildings@.len() || (
        m.buildings@.len() == 0 && selected_idx == 0),
        RunState::ConstructionSpotSelecting { selected_idx, x, y } => selected_idx
            < m.buildings@.len() && in_bounds(x as int, y as int),
        RunState::ConstructionSelecting { x, y } => in_bounds(x as int, y as int),
    }
}

/// The whole simulation state, owned by the single simulation loop.
pub struct State {
    pub map: GameMap,
    pub manifest: ConstructionManifest,
    pub stats: PlayerStats,
    pub buildings: Vec<PlacedBuilding>,
    pub runstate: RunState,
}

impl State {
    /// The standing invariant of the simulation: a ready catalog, a
    /// well-formed grid and ledger, every placed building bound to its
    /// catalog entry, and mode data fitting the catalog and grid.
    pub open spec fn wf(self) -> bool {
        &&& self.map.wf()
        &&& manifest_ready(self.manifest)
        &&& self.stats.wf()
        &&& forall|i: int|
            0 <= i < self.buildings@.len() ==> placed_wf(
                #[trigger] self.buildings@[i],
                self.manifest,
            )
        &&& runstate_wf(self.runstate, self.manifest)
    }
}

/// The parts of a tick that only accrue: the ledger advances to `mid`
/// and everything but the mode is untouched.
pub open spec fn tick_frame(pre: State, post: State, mid: PlayerStats) -> bool {
    &&& post.stats == mid
    &&& post.buildings@ == pre.buildings@
    &&& post.map == pre.map
}

/// The full effect of one simulation tick at wall-clock second `now`
/// consuming `intent`: resources accrue first, then the mode takes
/// exactly one transition, spawning or upgrading where the transition
/// table says so.
pub open spec fn tick_post(pre: State, intent: Option<Intent>, now: i64, post: State) -> bool {
    let mid = stats_after(pre.stats, pre.buildings@, now);
    &&& post.manifest == pre.manifest
    &&& match pre.runstate {
        RunState::PreRun => {
            &&& tick_frame(pre, post, mid)
            &&& post.runstate == RunState::Idle
        },
        RunState::Idle => {
            &&& tick_frame(pre, post, mid)
            &&& post.runstate == player_input_spec(pre.map, intent)
        },
        RunState::ConstructionMenu { selected_idx } => {
            &&& tick_frame(pre, post, mid)
            &&& post.runstate == (match menu_step_spec(pre.manifest, mid, selected_idx, intent) {
                ConstructionMenuResult::Escape => RunState::Idle,
                ConstructionMenuResult::NoSelection { selected_idx } => RunState::ConstructionMenu {
                    selected_idx,
                },
                ConstructionMenuResult::Selected { selected_idx } => RunState::ConstructionSpotSelecting {
                    selected_idx,
                    x: (WINDOW_WIDTH as int / 2) as i32,
                    y: (WINDOW_HEIGHT as int / 2) as i32,
                },
            })
        },
        RunState::ConstructionSpotSelecting { selected_idx, x, y } => {
            match spot_step_spec(pre.manifest, pre.buildings@, selected_idx, x, y, intent) {
                ConstructionSpotSelectingResult::Escape => {
                    &&& tick_frame(pre, post, mid)
                    &&& post.runstate == RunState::ConstructionMenu { selected_idx }
                },
                ConstructionSpotSelectingResult::NoSelection { selected_idx: si, x: nx, y: ny } => {
                    &&& tick_frame(pre, post, mid)
                    &&& post.runstate == RunState::ConstructionSpotSelecting {
                        selected_idx: si,
                        x: nx,
                        y: ny,
                    }
                },
                ConstructionSpotSelectingResult::Selected { selected_idx: si, x: sx, y: sy } => {
                    &&& post.stats == mid
                    &&& post.runstate == RunState::Idle
                    &&& spawn_post(
                        pre.map,
                        post.map,
                        pre.buildings@,
                        post.buildings@,
                        spawn_kind_spec(pre.manifest.buildings@[si as int].name@)->Some_0,
                        pre.manifest.buildings@[si as int],
                        sx,
                        sy,
                    )
                },
            }
        },
        RunState::ConstructionSelecting { x, y } => {
            if intent == Some(Intent::Upgrade) {
                &&& post.map == pre.map
                &&& post.runstate == RunState::ConstructionSelecting { x, y }
                &&& (post.stats, post.buildings@) == upgrade_outcome(
                    mid,
                    pre.buildings@,
                    pre.manifest,
                    x,
                    y,
                )
            } else {
                &&& tick_frame(pre, post, mid)
                &&& post.runstate == (match selecting_step_spec(pre.map, x, y, intent) {
                    ConstructionSelectingResult::Escape => RunState::Idle,
                    ConstructionSelectingResult::NoSelection { x, y } => RunState::ConstructionSelecting {
                        x,
                        y,
                    },
                    ConstructionSelectingResult::Selected { .. } => RunState::Idle,
                })
            }
        },
    }
}

impl State {
    /// Start a game: validate the catalog (fatal if it fails — the
    /// caller aborts), build a fresh map and an empty registry, and
    /// create the ledger with empty pools and an accrual boundary one
    /// second in the past.
    pub fn new(
        manifest: ConstructionManifest,
        food_max: i32,
        wood_max: i32,
        stone_max: i32,
        now: i64,
    ) -> (r: Option<State>)
        requires
            0 < food_max,
            0 < wood_max,
            0 < stone_max,
            i64::MIN < now,
        ensures
            (r is Some) == manifest_ready(manifest),
            r matches Some(s) ==> {
                &&& s.wf()
                &&& s.manifest == manifest
                &&& s.stats.food.amount == 0 && s.stats.food.max_amount == food_max
                    && s.stats.food.rate == 0
                &&& s.stats.wood.amount == 0 && s.stats.wood.max_amount == wood_max
                    && s.stats.wood.rate == 0
                &&& s.stats.stone.amount == 0 && s.stats.stone.max_amount == stone_max
                    && s.stats.stone.rate == 0
                &&& s.stats.next_refresh == now - 1
                &&& s.buildings@.len() == 0
                &&& s.runstate == RunState::PreRun
                &&& forall|i: int|
                    0 <= i < crate::grid::MAP_COUNT as int ==> s.map.occupied@[i] == false
                &&& forall|i: int|
                    0 <= i < crate::grid::MAP_COUNT as int ==> s.map.tiles@[i]
                        == crate::grid::TileType::Floor
            },
    {
        if !crate::spawner::validate_manifest(&manifest) {
            return None;
        }
        let map = GameMap::new();
        let stats = PlayerStats::new(food_max, wood_max, stone_max, now);
        Some(State { map, manifest, stats, buildings: Vec::new(), runstate: RunState::PreRun })
    }

    /// Run the accrual system against the wall clock.
    pub fn run_systems(&mut self)
        requires
            old(self).wf(),
        ensures
            (*final(self)).wf(),
            (*final(self)).map == old(self).map,
            (*final(self)).manifest == old(self).manifest,
            (*final(self)).buildings@ == old(self).buildings@,
            (*final(self)).runstate == old(self).runstate,
            exists|now: i64|
                (*final(self)).stats == stats_after(
                    old(self).stats,
                    old(self).buildings@,
                    now,
                ),
    {
        let now = crate::clock::now_seconds();
        let mut system = ResourceSystem {};
        system.run(&self.buildings, &mut self.stats, now);
        proof {
            assert((*self).stats == stats_after(old(self).stats, old(self).buildings@, now));
        }
    }

    /// One simulation tick at wall-clock second `now`: accrue, then
    /// take one transition from `intent`.
    pub fn tick(&mut self, intent: Option<Intent>, now: i64)
        requires
            old(self).wf(),
        ensures
            (*final(self)).wf(),
            tick_post(*old(self), intent, now, *final(self)),
    {
        let mut system = ResourceSystem {};
        system.run(&self.buildings, &mut self.stats, now);
        match self.runstate {
            RunState::PreRun => {
                self.runstate = RunState::Idle;
            },
            RunState::Idle => {
                self.runstate = player_input(&self.map, intent);
            },
            RunState::ConstructionMenu { selected_idx } => {
                let result = construction_menu_step(
                    &self.manifest,
                    &self.stats,
                    selected_idx,
                    intent,
                );
                match result {
                    ConstructionMenuResult::Escape => {
                        self.runstate = RunState::Idle;
                    },
                    ConstructionMenuResult::NoSelection { selected_idx } => {
                        self.runstate = RunState::ConstructionMenu { selected_idx };
                    },
                    ConstructionMenuResult::Selected { selected_idx } => {
                        proof {
                            assert(in_bounds(
                                WINDOW_WIDTH as int / 2,
                                WINDOW_HEIGHT as int / 2,
                            ));
                        }
                        self.runstate = RunState::ConstructionSpotSelecting {
                            selected_idx,
                            x: (WINDOW_WIDTH / 2) as i32,
                            y: (WINDOW_HEIGHT / 2) as i32,
                        };
                    },
                }
            },
            RunState::ConstructionSpotSelecting { selected_idx, x, y } => {
                let result = construction_spot_step(
                    &self.manifest,
                    &self.buildings,
                    selected_idx,
                    x,
                    y,
                    intent,
                );
                match result {
                    ConstructionSpotSelectingResult::Escape => {
                        self.runstate = RunState::ConstructionMenu { selected_idx };
                    },
                    ConstructionSpotSelectingResult::NoSelection { selected_idx, x, y } => {
                        self.runstate = RunState::ConstructionSpotSelecting {
                            selected_idx,
                            x,
                            y,
                        };
                    },
                    ConstructionSpotSelectingResult::Selected { selected_idx, x, y } => {
                        let (detail, kind) = get_spawner(&self.manifest, selected_idx);
                        spawn_building(&mut self.map, &mut self.buildings, &detail, kind, x, y);
                        self.runstate = RunState::Idle;
                        proof {
                            lemma_spawn_keeps_registry_wf(
                                *old(self),
                                *self,
                                selected_idx,
                                kind,
                                x,
                                y,
                            );
                        }
                    },
                }
            },
            RunState::ConstructionSelecting { x, y } => {
                match intent {
                    Some(Intent::Upgrade) => {
                        let _ = try_upgrade_at(
                            &mut self.stats,
                            &mut self.buildings,
                            &self.manifest,
                            x,
                            y,
                        );
                        self.runstate = RunState::ConstructionSelecting { x, y };
                    },
                    _ => {
                        let result = construction_selecting_step(&self.map, x, y, intent);
                        match result {
                            ConstructionSelectingResult::Escape => {
                                self.runstate = RunState::Idle;
                            },
                            ConstructionSelectingResult::NoSelection { x, y } => {
                                self.runstate = RunState::ConstructionSelecting { x, y };
                            },
                            ConstructionSelectingResult::Selected { .. } => {
                                self.runstate = RunState::Idle;
                            },
                        }
                    },
                }
            },
        }
    }

    /// One simulation tick against the wall clock.
    pub fn tick_now(&mut self, intent: Option<Intent>)
        requires
            old(self).wf(),
        ensures
            (*final(self)).wf(),
            exists|now: i64| tick_post(*old(self), intent, now, *final(self)),
    {
        let now = crate::clock::now_seconds();
        self.tick(intent, now);
        proof {
            assert(tick_post(*old(self), intent, now, *self));
        }
    }
}

/// After a gated spawn, every registry entry — old and new — still
/// satisfies the registry invariant.
proof fn lemma_spawn_keeps_registry_wf(
    pre: State,
    post: State,
    si: usize,
    kind: crate::spawner::SpawnKind,
    x: i32,
    y: i32,
)
    requires
        pre.wf(),
        si < pre.manifest.buildings@.len(),
        post.manifest == pre.manifest,
        Some(kind) == spawn_kind_spec(pre.manifest.buildings@[si as int].name@),
        spawn_post(
            pre.map,
            post.map,
            pre.buildings@,
            post.buildings@,
            kind,
            pre.manifest.buildings@[si as int],
            x,
            y,
        ),
    ensures
        forall|i: int|
            0 <= i < post.buildings@.len() ==> placed_wf(
                #[trigger] post.buildings@[i],
                post.manifest,
            ),
{
    let bs = post.buildings@;
    let detail = pre.manifest.buildings@[si as int];
    assert forall|i: int| 0 <= i < bs.len() implies placed_wf(#[trigger] bs[i], post.manifest) by {
        if i < bs.len() - 1 {
            assert(bs.drop_last()[i] == bs[i]);
            assert(placed_wf(pre.buildings@[i], pre.manifest));
        } else {
            let pb = bs[i];
            assert(pb == bs.last());
            assert(forall|j: int|
                0 <= j < si as int ==> pre.manifest.buildings@[j].name@ != detail.name@);
            crate::catalog::lemma_detail_index_of_first_match(
                pre.manifest.buildings@,
                detail.name@,
                si as int,
            );
            assert(crate::catalog::detail_index_of(pre.manifest.buildings@, pb.name.name@)
                == Some(si as int));
            assert(crate::spawner::entry_ready(pre.manifest.buildings@[si as int]));
        }
    }
}

} // verus!
