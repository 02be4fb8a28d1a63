//! The building catalog: the immutable, data-driven schema of building
//! kinds, their per-level stats, and the requirements for construction
//! and upgrades.
//!
//! Level 0 is the initial construction of a building, so a well-formed
//! entry always has a level 0, and its requirement set (if present) may
//! not demand a prior building level.

use vstd::prelude::*;

use crate::grid::{MAP_HEIGHT, MAP_WIDTH};

verus! {

/// What a level demands before it can be built: an exact current
/// building level, a minimum player level, and resource costs. Absent
/// fields impose no constraint.
#[derive(Clone, Copy, Debug)]
pub struct ConstructionRequirment {
    /// Present in the schema but not evaluated anywhere: no
    /// player-leveling system exists yet.
    pub current_player_level: Option<i32>,
    pub current_building_level: Option<i32>,
    pub food: Option<i32>,
    pub wood: Option<i32>,
    pub stone: Option<i32>,
}

impl ConstructionRequirment {
    /// Levels and costs are never negative.
    pub open spec fn wf(self) -> bool {
        &&& (self.current_building_level matches Some(v) ==> 0 <= v)
        &&& (self.food matches Some(v) ==> 0 <= v)
        &&& (self.wood matches Some(v) ==> 0 <= v)
        &&& (self.stone matches Some(v) ==> 0 <= v)
    }
}

/// One level of a building kind: its generation rate (absent if the kind
/// generates nothing) and what reaching this level requires.
#[derive(Clone, Copy, Debug)]
pub struct LevelDetail {
    pub rate: Option<i32>,
    pub requirements: Option<ConstructionRequirment>,
}

impl LevelDetail {
    pub open spec fn wf(self) -> bool {
        &&& (self.rate matches Some(v) ==> 0 <= v)
        &&& (self.requirements matches Some(r) ==> r.wf())
    }
}

/// One building kind: its footprint, how it is drawn, and its levels
/// in order (index 0 is initial construction).
#[derive(Debug)]
pub struct BuildingDetail {
    pub name: String,
    pub width: i32,
    pub height: i32,
    pub fg: String,
    pub bg: String,
    pub glyph: char,
    pub levels: Vec<LevelDetail>,
}

/// Field-by-field agreement of two catalog entries, comparing the heap
/// parts by their contents.
pub open spec fn detail_like(a: BuildingDetail, b: BuildingDetail) -> bool {
    &&& a.name@ == b.name@
    &&& a.width == b.width
    &&& a.height == b.height
    &&& a.fg@ == b.fg@
    &&& a.bg@ == b.bg@
    &&& a.glyph == b.glyph
    &&& a.levels@ == b.levels@
}

impl BuildingDetail {
    /// A well-formed entry: a footprint that fits the playable area, a
    /// level 0, levels that fit an `i32` count, well-formed level data,
    /// and no prior-building-level demand on initial construction.
    pub open spec fn wf(self) -> bool {
        &&& 1 <= self.width <= MAP_WIDTH as int
        &&& 1 <= self.height <= MAP_HEIGHT as int
        &&& 1 <= self.levels@.len() <= i32::MAX as int
        &&& (forall|i: int| 0 <= i < self.levels@.len() ==> (#[trigger] self.levels@[i]).wf())
        &&& (self.levels@[0].requirements matches Some(r) ==> r.current_building_level is None)
    }
}

impl BuildingDetail {
    /// Decide `wf` executably, for fail-fast validation at load time.
    pub fn check_wf(&self) -> (r: bool)
        ensures
            r == self.wf(),
    {
        if !(1 <= self.width && self.width <= MAP_WIDTH as i32) {
            return false;
        }
        if !(1 <= self.height && self.height <= MAP_HEIGHT as i32) {
            return false;
        }
        if self.levels.len() == 0 || self.levels.len() > i32::MAX as usize {
            return false;
        }
        let mut i: usize = 0;
        while i < self.levels.len()
            invariant
                i <= self.levels@.len(),
                forall|j: int| 0 <= j < i as int ==> (#[trigger] self.levels@[j]).wf(),
            decreases self.levels@.len() - i,
        {
            let lv = self.levels[i];
            if let Some(v) = lv.rate {
                if v < 0 {
                    return false;
                }
            }
            if let Some(req) = lv.requirements {
                if let Some(v) = req.current_building_level {
                    if v < 0 {
                        return false;
                    }
                }
                if let Some(v) = req.food {
                    if v < 0 {
                        return false;
                    }
                }
                if let Some(v) = req.wood {
                    if v < 0 {
                        return false;
                    }
                }
                if let Some(v) = req.stone {
                    if v < 0 {
                        return false;
                    }
                }
            }
            i = i + 1;
        }
        if let Some(req) = self.levels[0].requirements {
            if req.current_building_level.is_some() {
                return false;
            }
        }
        true
    }
}

impl Clone for BuildingDetail {
    /// A deep copy that provably preserves every field.
    fn clone(&self) -> (res: Self)
        ensures
            detail_like(res, *self),
    {
        let mut levels: Vec<LevelDetail> = Vec::new();
        let mut i: usize = 0;
        while i < self.levels.len()
            invariant
                i <= self.levels@.len(),
                levels@.len() == i as int,
                forall|j: int| 0 <= j < i as int ==> levels@[j] == self.levels@[j],
            decreases self.levels@.len() - i,
        {
            levels.push(self.levels[i]);
            i = i + 1;
        }
        proof {
            assert(levels@ =~= self.levels@);
        }
        BuildingDetail {
            name: self.name.clone(),
            width: self.width,
            height: self.height,
            fg: self.fg.clone(),
            bg: self.bg.clone(),
            glyph: self.glyph,
            levels,
        }
    }
}

/// The catalog as loaded at startup: every known building kind.
#[derive(Debug)]
pub struct ConstructionManifest {
    pub buildings: Vec<BuildingDetail>,
}

/// The first catalog index whose entry bears `name`, if any.
pub open spec fn detail_index_of(buildings: Seq<BuildingDetail>, name: Seq<char>) -> Option<int>
    decreases buildings.len(),
{
    if buildings.len() == 0 {
        None
    } else if buildings[0].name@ == name {
        Some(0)
    } else {
        match detail_index_of(buildings.drop_first(), name) {
            Some(i) => Some(i + 1),
            None => None,
        }
    }
}

impl ConstructionManifest {
    /// A well-formed catalog: every entry well-formed, and entries keyed
    /// by name, so names are pairwise distinct.
    pub open spec fn wf(self) -> bool {
        &&& (forall|i: int|
            0 <= i < self.buildings@.len() ==> (#[trigger] self.buildings@[i]).wf())
        &&& (forall|i: int, j: int|
            0 <= i < j < self.buildings@.len() ==> self.buildings@[i].name@
                != self.buildings@[j].name@)
    }

    /// Decide `wf` executably: every entry well-formed and all names
    /// distinct. Loading a catalog that fails this check is a fatal
    /// content-authoring error.
    pub fn validate(&self) -> (r: bool)
        ensures
            r == self.wf(),
    {
        let mut i: usize = 0;
        while i < self.buildings.len()
            invariant
                i <= self.buildings@.len(),
                forall|j: int| 0 <= j < i as int ==> (#[trigger] self.buildings@[j]).wf(),
            decreases self.buildings@.len() - i,
        {
            if !self.buildings[i].check_wf() {
                return false;
            }
            i = i + 1;
        }
        let mut a: usize = 0;
        while a < self.buildings.len()
            invariant
                a <= self.buildings@.len(),
                forall|p: int, q: int|
                    0 <= p < q < self.buildings@.len() && q < a as int
                        ==> self.buildings@[p].name@ != self.buildings@[q].name@,
            decreases self.buildings@.len() - a,
        {
            let mut b: usize = 0;
            while b < a
                invariant
                    a < self.buildings@.len(),
                    b <= a,
                    forall|p: int|
                        0 <= p < b as int ==> self.buildings@[p].name@ != self.buildings@[
                            a as int
                        ].name@,
                decreases a - b,
            {
                if self.buildings[b].name == self.buildings[a].name {
                    return false;
                }
                b = b + 1;
            }
            a = a + 1;
        }
        true
    }

    /// Look up an entry by exact name, returning its index.
    pub fn find_detail(&self, name: &String) -> (r: Option<usize>)
        ensures
            r matches Some(i) ==> i < self.buildings@.len() && detail_index_of(
                self.buildings@,
                name@,
            ) == Some(i as int),
            r is None ==> detail_index_of(self.buildings@, name@) is None,
    {
        proof {
            lemma_detail_index_of_in_range(self.buildings@, name@);
        }
        let mut i: usize = 0;
        while i < self.buildings.len()
            invariant
                i <= self.buildings@.len(),
                forall|j: int| 0 <= j < i as int ==> self.buildings@[j].name@ != name@,
                detail_index_of(self.buildings@, name@) matches Some(k) ==> i as int <= k,
            decreases self.buildings@.len() - i,
        {
            if self.buildings[i].name == *name {
                proof {
                    lemma_detail_index_of_first_match(self.buildings@, name@, i as int);
                }
                return Some(i);
            }
            i = i + 1;
            proof {
                lemma_detail_index_of_lower_bound(self.buildings@, name@, i as int);
            }
        }
        proof {
            lemma_detail_index_of_in_range(self.buildings@, name@);
        }
        None
    }
}

/// `detail_index_of` returns an in-range index whose entry bears the
/// searched name.
pub proof fn lemma_detail_index_of_in_range(buildings: Seq<BuildingDetail>, name: Seq<char>)
    ensures
        detail_index_of(buildings, name) matches Some(i) ==> 0 <= i < buildings.len()
            && buildings[i].name@ == name,
    decreases buildings.len(),
{
    if buildings.len() > 0 && buildings[0].name@ != name {
        lemma_detail_index_of_in_range(buildings.drop_first(), name);
    }
}

/// If the entries before `i` all miss `name` and entry `i` bears it,
/// then `i` is the first match.
pub proof fn lemma_detail_index_of_first_match(
    buildings: Seq<BuildingDetail>,
    name: Seq<char>,
    i: int,
)
    requires
        0 <= i < buildings.len(),
        buildings[i].name@ == name,
        forall|j: int| 0 <= j < i ==> buildings[j].name@ != name,
    ensures
        detail_index_of(buildings, name) == Some(i),
    decreases i,
{
    if i > 0 {
        lemma_detail_index_of_first_match(buildings.drop_first(), name, i - 1);
    }
}

/// If the entries before `i` all miss `name`, any match sits at `i` or
/// beyond.
proof fn lemma_detail_index_of_lower_bound(buildings: Seq<BuildingDetail>, name: Seq<char>, i: int)
    requires
        0 <= i <= buildings.len(),
        forall|j: int| 0 <= j < i ==> buildings[j].name@ != name,
    ensures
        detail_index_of(buildings, name) matches Some(k) ==> i <= k,
    decreases i,
{
    lemma_detail_index_of_in_range(buildings, name);
    if i > 0 && buildings.len() > 0 && buildings[0].name@ != name {
        lemma_detail_index_of_lower_bound(buildings.drop_first(), name, i - 1);
    }
}

} // verus!
