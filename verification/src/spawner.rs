//! Spawning placed buildings: the closed, catalog-name-keyed table of
//! constructors, one per building kind. Each constructor wires a
//! different generator resource kind (or none), marks the anchor cell
//! in the occupancy bitmap, and inserts the instance into the registry.

use vstd::prelude::*;

use crate::catalog::{detail_index_of, detail_like, BuildingDetail, ConstructionManifest};
use crate::components::{
    Building, Generator, Name, PlacedBuilding, Renderable, ResourceType,
};
use crate::grid::{flat_idx, in_bounds, GameMap};
use crate::rect::Rect;

verus! {

/// The building kinds with a registered constructor.
#[derive(Clone, Copy, Debug, PartialEq, Eq, Structural)]
pub enum SpawnKind {
    Farm,
    FoodFactory,
    Army,
    LumberCamp,
    MiningCamp,
}

/// The registered constructor for a catalog name, if any. The table is
/// closed: a catalog entry under any other name has no constructor.
pub open spec fn spawn_kind_spec(name: Seq<char>) -> Option<SpawnKind> {
    if name == "Farm"@ {
        Some(SpawnKind::Farm)
    } else if name == "Food Factory"@ {
        Some(SpawnKind::FoodFactory)
    } else if name == "Army"@ {
        Some(SpawnKind::Army)
    } else if name == "Lumber Camp"@ {
        Some(SpawnKind::LumberCamp)
    } else if name == "Mining Camp"@ {
        Some(SpawnKind::MiningCamp)
    } else {
        None
    }
}

/// The resource kind a constructor wires into its generator, or `None`
/// for kinds that generate nothing.
pub open spec fn kind_resource(kind: SpawnKind) -> Option<ResourceType> {
    match kind {
        SpawnKind::Farm => Some(ResourceType::Food),
        SpawnKind::FoodFactory => Some(ResourceType::Food),
        SpawnKind::Army => None,
        SpawnKind::LumberCamp => Some(ResourceType::Wood),
        SpawnKind::MiningCamp => Some(ResourceType::Stone),
    }
}

/// The glyph each constructor draws its building with.
pub open spec fn kind_glyph(kind: SpawnKind) -> char {
    match kind {
        SpawnKind::Farm => '\u{263c}',
        SpawnKind::FoodFactory => 'o',
        SpawnKind::Army => 'x',
        SpawnKind::LumberCamp => '\u{2563}',
        SpawnKind::MiningCamp => '\u{25a0}',
    }
}

/// The foreground color identifier each constructor uses.
pub open spec fn kind_fg(kind: SpawnKind) -> Seq<char> {
    match kind {
        SpawnKind::Farm => "WHEAT3"@,
        SpawnKind::FoodFactory => "LIME"@,
        SpawnKind::Army => "RED"@,
        SpawnKind::LumberCamp => "TAN4"@,
        SpawnKind::MiningCamp => "GRAY60"@,
    }
}

/// Compare two string slices by their characters.
fn str_eq(a: &str, b: &str) -> (r: bool)
    ensures
        r == (a@ == b@),
{
    let owned_a: String = a.to_owned();
    let owned_b: String = b.to_owned();
    owned_a == owned_b
}

/// Look up the registered constructor for a catalog name.
pub fn spawn_kind_of(name: &str) -> (r: Option<SpawnKind>)
    ensures
        r == spawn_kind_spec(name@),
{
    if str_eq(name, "Farm") {
        Some(SpawnKind::Farm)
    } else if str_eq(name, "Food Factory") {
        Some(SpawnKind::FoodFactory)
    } else if str_eq(name, "Army") {
        Some(SpawnKind::Army)
    } else if str_eq(name, "Lumber Camp") {
        Some(SpawnKind::LumberCamp)
    } else if str_eq(name, "Mining Camp") {
        Some(SpawnKind::MiningCamp)
    } else {
        None
    }
}

/// A catalog entry the spawn table can serve: its name has a registered
/// constructor, and if that constructor wires a generator, every level
/// of the entry defines a rate for the generator to take.
pub open spec fn entry_rates_ok(d: BuildingDetail) -> bool {
    forall|lv: int| 0 <= lv < d.levels@.len() ==> (#[trigger] d.levels@[lv]).rate is Some
}

pub open spec fn entry_ready(d: BuildingDetail) -> bool {
    match spawn_kind_spec(d.name@) {
        Some(k) => match kind_resource(k) {
            Some(_) => entry_rates_ok(d),
            None => true,
        },
        None => false,
    }
}

/// A catalog fit for play: well-formed, and every entry servable by the
/// spawn table. Checked once at load time; failing it is fatal.
pub open spec fn manifest_ready(m: ConstructionManifest) -> bool {
    &&& m.wf()
    &&& forall|i: int| 0 <= i < m.buildings@.len() ==> entry_ready(#[trigger] m.buildings@[i])
}

/// The registry invariant for one placed building: well-formed, bound
/// by name to an existing catalog entry, its level within that entry's
/// levels, and (if it has a generator) a rate at every level to upgrade
/// into.
pub open spec fn placed_wf(pb: PlacedBuilding, m: ConstructionManifest) -> bool {
    &&& pb.wf()
    &&& detail_index_of(m.buildings@, pb.name.name@) matches Some(j) && {
        let d = m.buildings@[j];
        &&& (pb.building.level as int) < d.levels@.len()
        &&& (pb.generator matches Some(_) ==> forall|lv: int|
            0 <= lv < d.levels@.len() ==> (#[trigger] d.levels@[lv]).rate is Some)
    }
}

/// Decide `manifest_ready` executably, for fail-fast loading.
pub fn validate_manifest(m: &ConstructionManifest) -> (r: bool)
    ensures
        r == manifest_ready(*m),
{
    if !m.validate() {
        return false;
    }
    let mut i: usize = 0;
    while i < m.buildings.len()
        invariant
            i <= m.buildings@.len(),
            forall|j: int| 0 <= j < i as int ==> entry_ready(#[trigger] m.buildings@[j]),
        decreases m.buildings@.len() - i,
    {
        let d = &m.buildings[i];
        let kind = match spawn_kind_of(d.name.as_str()) {
            Some(k) => k,
            None => {
                proof {
                    assert(!entry_ready(m.buildings@[i as int]));
                }
                return false;
            },
        };
        let generates: bool = match kind {
            SpawnKind::Farm => true,
            SpawnKind::FoodFactory => true,
            SpawnKind::Army => false,
            SpawnKind::LumberCamp => true,
            SpawnKind::MiningCamp => true,
        };
        proof {
            assert(generates == (kind_resource(kind) is Some));
        }
        if generates {
            let mut lv: usize = 0;
            while lv < d.levels.len()
                invariant
                    i < m.buildings@.len(),
                    *d == m.buildings@[i as int],
                    spawn_kind_spec(d.name@) == Some(kind),
                    kind_resource(kind) is Some,
                    lv <= d.levels@.len(),
                    forall|q: int| 0 <= q < lv as int ==> (#[trigger] d.levels@[q]).rate is Some,
                decreases d.levels@.len() - lv,
            {
                if d.levels[lv].rate.is_none() {
                    proof {
                        if entry_ready(m.buildings@[i as int]) {
                            assert(m.buildings@[i as int].levels@[lv as int].rate is Some);
                        }
                    }
                    return false;
                }
                lv = lv + 1;
            }
        }
        i = i + 1;
    }
    true
}

/// The generator a constructor attaches for `kind`, given the entry's
/// level-0 rate.
pub open spec fn spawned_generator(kind: SpawnKind, detail: BuildingDetail) -> Option<Generator> {
    match kind_resource(kind) {
        Some(rt) => Some(
            Generator { rate: detail.levels@[0].rate->Some_0, resource_type: rt },
        ),
        None => None,
    }
}

/// What a freshly spawned instance looks like: a level-0 building whose
/// footprint is the entry's, anchored at `(x, y)`, bearing the entry's
/// name, the constructor's renderable, and the constructor's generator.
pub open spec fn spawned_ok(
    pb: PlacedBuilding,
    kind: SpawnKind,
    detail: BuildingDetail,
    x: i32,
    y: i32,
) -> bool {
    &&& pb.building == (Building {
        rect: Rect {
            x1: x,
            y1: y,
            x2: (x + detail.width) as i32,
            y2: (y + detail.height) as i32,
        },
        level: 0,
    })
    &&& pb.name.name@ == detail.name@
    &&& pb.renderable.glyph == kind_glyph(kind)
    &&& pb.renderable.fg@ == kind_fg(kind)
    &&& pb.renderable.bg@ == "BLACK"@
    &&& pb.renderable.render_order == 0
    &&& pb.generator == spawned_generator(kind, detail)
}

/// What every constructor guarantees: the anchor cell is marked in the
/// bitmap, the new instance is appended to the registry, and nothing
/// else changes.
pub open spec fn spawn_post(
    map_pre: GameMap,
    map_post: GameMap,
    bs_pre: Seq<PlacedBuilding>,
    bs_post: Seq<PlacedBuilding>,
    kind: SpawnKind,
    detail: BuildingDetail,
    x: i32,
    y: i32,
) -> bool {
    &&& map_post.wf()
    &&& map_post.occupied@ == map_pre.occupied@.update(flat_idx(x as int, y as int), true)
    &&& map_post.tiles@ == map_pre.tiles@
    &&& bs_post.len() == bs_pre.len() + 1
    &&& bs_post.drop_last() == bs_pre
    &&& spawned_ok(bs_post.last(), kind, detail, x, y)
    &&& bs_post.last().wf()
}

/// Constructor body shared by every building kind.
fn spawn_common(
    map: &mut GameMap,
    buildings: &mut Vec<PlacedBuilding>,
    detail: &BuildingDetail,
    kind: SpawnKind,
    x: i32,
    y: i32,
    glyph: char,
    fg: &str,
)
    requires
        old(map).wf(),
        in_bounds(x as int, y as int),
        detail.wf(),
        glyph == kind_glyph(kind),
        fg@ == kind_fg(kind),
        kind_resource(kind) matches Some(_) ==> detail.levels@[0].rate matches Some(_),
    ensures
        spawn_post(
            *old(map),
            *final(map),
            old(buildings)@,
            (*final(buildings))@,
            kind,
            *detail,
            x,
            y,
        ),
{
    map.mark_occupied(x, y);
    let rect = Rect::new(x, y, detail.width, detail.height);
    let generator: Option<Generator> = match kind {
        SpawnKind::Farm => Some(
            Generator { rate: detail.levels[0].rate.unwrap(), resource_type: ResourceType::Food },
        ),
        SpawnKind::FoodFactory => Some(
            Generator { rate: detail.levels[0].rate.unwrap(), resource_type: ResourceType::Food },
        ),
        SpawnKind::Army => None,
        SpawnKind::LumberCamp => Some(
            Generator { rate: detail.levels[0].rate.unwrap(), resource_type: ResourceType::Wood },
        ),
        SpawnKind::MiningCamp => Some(
            Generator { rate: detail.levels[0].rate.unwrap(), resource_type: ResourceType::Stone },
        ),
    };
    let pb = PlacedBuilding {
        building: Building { rect, level: 0 },
        name: Name { name: detail.name.clone() },
        renderable: Renderable {
            glyph,
            fg: fg.to_owned(),
            bg: "BLACK".to_owned(),
            render_order: 0,
        },
        generator,
    };
    buildings.push(pb);
    proof {
        assert(buildings@.drop_last() =~= old(buildings)@);
    }
}

/// Spawn a farm: a food generator at the entry's level-0 rate.
pub fn spawn_farm(
    map: &mut GameMap,
    buildings: &mut Vec<PlacedBuilding>,
    detail: &BuildingDetail,
    x: i32,
    y: i32,
)
    requires
        old(map).wf(),
        in_bounds(x as int, y as int),
        detail.wf(),
        detail.levels@[0].rate matches Some(_),
    ensures
        spawn_post(
            *old(map),
            *final(map),
            old(buildings)@,
            (*final(buildings))@,
            SpawnKind::Farm,
            *detail,
            x,
            y,
        ),
{
    spawn_common(map, buildings, detail, SpawnKind::Farm, x, y, '\u{263c}', "WHEAT3");
}

/// Spawn a food factory: a food generator at the entry's level-0 rate.
pub fn spawn_food_factory(
    map: &mut GameMap,
    buildings: &mut Vec<PlacedBuilding>,
    detail: &BuildingDetail,
    x: i32,
    y: i32,
)
    requires
        old(map).wf(),
        in_bounds(x as int, y as int),
        detail.wf(),
        detail.levels@[0].rate matches Some(_),
    ensures
        spawn_post(
            *old(map),
            *final(map),
            old(buildings)@,
            (*final(buildings))@,
            SpawnKind::FoodFactory,
            *detail,
            x,
            y,
        ),
{
    spawn_common(map, buildings, detail, SpawnKind::FoodFactory, x, y, 'o', "LIME");
}

/// Spawn an army camp: no generator.
pub fn spawn_army(
    map: &mut GameMap,
    buildings: &mut Vec<PlacedBuilding>,
    detail: &BuildingDetail,
    x: i32,
    y: i32,
)
    requires
        old(map).wf(),
        in_bounds(x as int, y as int),
        detail.wf(),
    ensures
        spawn_post(
            *old(map),
            *final(map),
            old(buildings)@,
            (*final(buildings))@,
            SpawnKind::Army,
            *detail,
            x,
            y,
        ),
{
    spawn_common(map, buildings, detail, SpawnKind::Army, x, y, 'x', "RED");
}

/// Spawn a lumber camp: a wood generator at the entry's level-0 rate.
pub fn spawn_lumber_camp(
    map: &mut GameMap,
    buildings: &mut Vec<PlacedBuilding>,
    detail: &BuildingDetail,
    x: i32,
    y: i32,
)
    requires
        old(map).wf(),
        in_bounds(x as int, y as int),
        detail.wf(),
        detail.levels@[0].rate matches Some(_),
    ensures
        spawn_post(
            *old(map),
            *final(map),
            old(buildings)@,
            (*final(buildings))@,
            SpawnKind::LumberCamp,
            *detail,
            x,
            y,
        ),
{
    spawn_common(map, buildings, detail, SpawnKind::LumberCamp, x, y, '\u{2563}', "TAN4");
}

/// Spawn a mining camp: a stone generator at the entry's level-0 rate.
pub fn spawn_mining_camp(
    map: &mut GameMap,
    buildings: &mut Vec<PlacedBuilding>,
    detail: &BuildingDetail,
    x: i32,
    y: i32,
)
    requires
        old(map).wf(),
        in_bounds(x as int, y as int),
        detail.wf(),
        detail.levels@[0].rate matches Some(_),
    ensures
        spawn_post(
            *old(map),
            *final(map),
            old(buildings)@,
            (*final(buildings))@,
            SpawnKind::MiningCamp,
            *detail,
            x,
            y,
        ),
{
    spawn_common(map, buildings, detail, SpawnKind::MiningCamp, x, y, '\u{25a0}', "GRAY60");
}

/// Resolve the constructor for catalog entry `idx`, handing back a copy
/// of the entry and the constructor's kind. Requesting an entry with no
/// registered constructor is a content error, excluded by precondition.
pub fn get_spawner(manifest: &ConstructionManifest, idx: usize) -> (r: (BuildingDetail, SpawnKind))
    requires
        idx < manifest.buildings@.len(),
        spawn_kind_spec(manifest.buildings@[idx as int].name@) matches Some(_),
    ensures
        detail_like(r.0, manifest.buildings@[idx as int]),
        Some(r.1) == spawn_kind_spec(manifest.buildings@[idx as int].name@),
{
    let detail = manifest.buildings[idx].clone();
    let kind = spawn_kind_of(detail.name.as_str()).unwrap();
    (detail, kind)
}

/// Run the constructor of `kind` for `detail` at `(x, y)`.
pub fn spawn_building(
    map: &mut GameMap,
    buildings: &mut Vec<PlacedBuilding>,
    detail: &BuildingDetail,
    kind: SpawnKind,
    x: i32,
    y: i32,
)
    requires
        old(map).wf(),
        in_bounds(x as int, y as int),
        detail.wf(),
        kind_resource(kind) matches Some(_) ==> detail.levels@[0].rate matches Some(_),
    ensures
        spawn_post(
            *old(map),
            *final(map),
            old(buildings)@,
            (*final(buildings))@,
            kind,
            *detail,
            x,
            y,
        ),
{
    match kind {
        SpawnKind::Farm => spawn_farm(map, buildings, detail, x, y),
        SpawnKind::FoodFactory => spawn_food_factory(map, buildings, detail, x, y),
        SpawnKind::Army => spawn_army(map, buildings, detail, x, y),
        SpawnKind::LumberCamp => spawn_lumber_camp(map, buildings, detail, x, y),
        SpawnKind::MiningCamp => spawn_mining_camp(map, buildings, detail, x, y),
    }
}

} // verus!
