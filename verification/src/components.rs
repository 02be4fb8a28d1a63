//! The data carried by every placed building and by the player's ledger.

use vstd::prelude::*;

use crate::rect::Rect;

verus! {

/// The three resource kinds a generator can produce.
#[derive(Clone, Copy, Debug, PartialEq, Eq, Structural)]
pub enum ResourceType {
    Food,
    Stone,
    Wood,
}

/// One resource pool of a player: the stored amount, the fixed cap, and
/// the per-second accrual rate recomputed on every accrual pass.
#[derive(Clone, Copy, Debug, PartialEq, Eq, Structural)]
pub struct ResourceInfo {
    pub amount: i32,
    pub max_amount: i32,
    /// per second
    pub rate: i32,
}

impl ResourceInfo {
    /// The pool's standing invariant: the cap is positive, the amount
    /// stays between zero and the cap, and the rate is never negative.
    pub open spec fn wf(self) -> bool {
        &&& 0 < self.max_amount
        &&& 0 <= self.amount <= self.max_amount
        &&& 0 <= self.rate
    }

    /// An empty pool with the given cap.
    pub fn new(max_amount: i32) -> (r: ResourceInfo)
        requires
            0 < max_amount,
        ensures
            r == (ResourceInfo { amount: 0, max_amount, rate: 0 }),
            r.wf(),
    {
        ResourceInfo { amount: 0, max_amount, rate: 0 }
    }
}

/// The per-player ledger: one pool per resource kind, plus the timestamp
/// (in whole seconds) of the last accrual boundary.
#[derive(Clone, Copy, Debug, PartialEq, Eq, Structural)]
pub struct PlayerStats {
    pub food: ResourceInfo,
    pub wood: ResourceInfo,
    pub stone: ResourceInfo,
    /// second
    pub next_refresh: i64,
}

impl PlayerStats {
    pub open spec fn wf(self) -> bool {
        &&& self.food.wf()
        &&& self.wood.wf()
        &&& self.stone.wf()
    }

    /// A fresh ledger: all pools empty, and `next_refresh` one second in
    /// the past so that the very first tick performs an accrual pass.
    pub fn new(food_max: i32, wood_max: i32, stone_max: i32, now: i64) -> (r: PlayerStats)
        requires
            0 < food_max,
            0 < wood_max,
            0 < stone_max,
            i64::MIN < now,
        ensures
            r.food == (ResourceInfo { amount: 0, max_amount: food_max, rate: 0 }),
            r.wood == (ResourceInfo { amount: 0, max_amount: wood_max, rate: 0 }),
            r.stone == (ResourceInfo { amount: 0, max_amount: stone_max, rate: 0 }),
            r.next_refresh == now - 1,
            r.wf(),
    {
        PlayerStats {
            food: ResourceInfo::new(food_max),
            wood: ResourceInfo::new(wood_max),
            stone: ResourceInfo::new(stone_max),
            next_refresh: now - 1,
        }
    }
}

/// A placed building's footprint and current level.
#[derive(Clone, Copy, Debug, PartialEq, Eq, Structural)]
pub struct Building {
    pub rect: Rect,
    pub level: i32,
}

/// The display name binding a placed building to its catalog entry.
#[derive(Clone, Debug)]
pub struct Name {
    pub name: String,
}

/// How a building is drawn: its glyph, color identifiers, and draw order.
#[derive(Clone, Debug)]
pub struct Renderable {
    pub glyph: char,
    pub fg: String,
    pub bg: String,
    pub render_order: i32,
}

/// A building component producing one resource kind at a fixed rate,
/// changed only when the building is upgraded.
#[derive(Clone, Copy, Debug, PartialEq, Eq, Structural)]
pub struct Generator {
    /// per second
    pub rate: i32,
    pub resource_type: ResourceType,
}

impl Generator {
    pub open spec fn wf(self) -> bool {
        0 <= self.rate
    }
}

/// One live building instance owned by the registry: its footprint and
/// level, its catalog name, how it is drawn, and its generator if the
/// building kind produces a resource.
#[derive(Clone, Debug)]
pub struct PlacedBuilding {
    pub building: Building,
    pub name: Name,
    pub renderable: Renderable,
    pub generator: Option<Generator>,
}

impl PlacedBuilding {
    /// The level never falls below the initial construction level, and
    /// a generator never produces at a negative rate.
    pub open spec fn wf(self) -> bool {
        &&& 0 <= self.building.level
        &&& (self.generator matches Some(g) ==> g.wf())
    }
}

} // verus!
