//! The playable grid: tile storage, the anchor-cell occupancy bitmap, and
//! the row-major scans that jump the inspection cursor between buildings.
//!
//! The occupancy bitmap marks only each building's anchor (top-left) cell.
//! It is a navigation aid for the inspection cursor; placement validity
//! never consults it and works on full footprint rectangles instead.

use vstd::prelude::*;

verus! {

pub const WINDOW_WIDTH: usize = 150;

pub const WINDOW_HEIGHT: usize = 100;

pub const MAP_PADDING_LEFT: usize = 1;

pub const MAP_PADDING_RIGHT: usize = 1;

pub const MAP_PADDING_UP: usize = 1;

pub const MAP_PADDING_BOTTOM: usize = 15;

pub const MAP_WIDTH: usize = WINDOW_WIDTH - MAP_PADDING_LEFT - MAP_PADDING_RIGHT;

pub const MAP_HEIGHT: usize = WINDOW_HEIGHT - MAP_PADDING_UP - MAP_PADDING_BOTTOM;

#[verifier::nonlinear]
pub const MAP_COUNT: usize = MAP_HEIGHT * MAP_WIDTH;

#[derive(Clone, Copy, Debug, PartialEq, Eq, Structural)]
pub enum TileType {
    Wall,
    Floor,
}

/// The fixed-size playable grid.
#[derive(Clone, Debug)]
pub struct GameMap {
    pub tiles: Vec<TileType>,
    pub width: i32,
    pub height: i32,
    /// A cell is true iff it is the anchor (top-left) cell of a placed
    /// building.
    pub occupied: Vec<bool>,
}

/// Whether window coordinates `(x, y)` land on a playable map cell.
pub open spec fn in_bounds(x: int, y: int) -> bool {
    &&& MAP_PADDING_LEFT as int <= x < MAP_PADDING_LEFT as int + MAP_WIDTH as int
    &&& MAP_PADDING_UP as int <= y < MAP_PADDING_UP as int + MAP_HEIGHT as int
}

/// The row-major index of the map cell at window coordinates `(x, y)`.
pub open spec fn flat_idx(x: int, y: int) -> int {
    (y - MAP_PADDING_UP as int) * MAP_WIDTH as int + (x - MAP_PADDING_LEFT as int)
}

/// The first occupied cell at or after row-major index `i`, if any.
pub open spec fn next_occupied(occ: Seq<bool>, i: int) -> Option<int>
    decreases occ.len() - i,
{
    if i < 0 || i >= occ.len() {
        None
    } else if occ[i] {
        Some(i)
    } else {
        next_occupied(occ, i + 1)
    }
}

/// The first occupied cell at or before row-major index `i`, if any.
pub open spec fn prev_occupied(occ: Seq<bool>, i: int) -> Option<int>
    decreases i + 1,
{
    if i < 0 || i >= occ.len() {
        None
    } else if occ[i] {
        Some(i)
    } else {
        prev_occupied(occ, i - 1)
    }
}

/// The x window coordinate of the cell with row-major index `j`.
pub open spec fn cell_x(j: int) -> i32 {
    (j % MAP_WIDTH as int + MAP_PADDING_LEFT as int) as i32
}

/// The y window coordinate of the cell with row-major index `j`.
pub open spec fn cell_y(j: int) -> i32 {
    (j / MAP_WIDTH as int + MAP_PADDING_UP as int) as i32
}

/// Where the inspection cursor lands when sent up from `(x, y)`: the
/// nearest occupied cell scanning backward from the cell above, or the
/// starting position when the cursor is on the top row or no occupied
/// cell remains.
pub open spec fn cursor_up(occ: Seq<bool>, x: i32, y: i32) -> (i32, i32) {
    if y == MAP_PADDING_UP as int {
        (x, y)
    } else {
        match prev_occupied(occ, flat_idx(x as int, y as int - 1)) {
            Some(j) => (cell_x(j), cell_y(j)),
            None => (x, y),
        }
    }
}

/// Where the inspection cursor lands when sent down from `(x, y)`: the
/// nearest occupied cell scanning forward from the cell below, or the
/// starting position when the cursor is on the bottom row or no
/// occupied cell remains.
pub open spec fn cursor_down(occ: Seq<bool>, x: i32, y: i32) -> (i32, i32) {
    if y == MAP_PADDING_UP as int + MAP_HEIGHT as int - 1 {
        (x, y)
    } else {
        match next_occupied(occ, flat_idx(x as int, y as int + 1)) {
            Some(j) => (cell_x(j), cell_y(j)),
            None => (x, y),
        }
    }
}

/// Where the inspection cursor lands when sent left from `(x, y)`: the
/// nearest occupied cell scanning backward from the previous cell, or
/// the starting position when none exists.
pub open spec fn cursor_left(occ: Seq<bool>, x: i32, y: i32) -> (i32, i32) {
    if flat_idx(x as int, y as int) == 0 {
        (x, y)
    } else {
        match prev_occupied(occ, flat_idx(x as int, y as int) - 1) {
            Some(j) => (cell_x(j), cell_y(j)),
            None => (x, y),
        }
    }
}

/// Where the inspection cursor lands when sent right from `(x, y)`: the
/// nearest occupied cell scanning forward from the next cell, or the
/// starting position when none exists.
pub open spec fn cursor_right(occ: Seq<bool>, x: i32, y: i32) -> (i32, i32) {
    match next_occupied(occ, flat_idx(x as int, y as int) + 1) {
        Some(j) => (cell_x(j), cell_y(j)),
        None => (x, y),
    }
}

/// Scan from `start` toward the end of the bitmap for an occupied cell.
fn scan_forward(occ: &Vec<bool>, start: usize) -> (r: Option<usize>)
    ensures
        r matches Some(j) ==> j < occ@.len() && next_occupied(occ@, start as int) == Some(
            j as int,
        ),
        r is None ==> next_occupied(occ@, start as int) is None,
{
    let mut i: usize = start;
    while i < occ.len()
        invariant
            start <= i,
            next_occupied(occ@, start as int) == next_occupied(occ@, i as int),
        decreases occ@.len() - i,
    {
        if occ[i] {
            return Some(i);
        }
        i = i + 1;
    }
    None
}

/// Scan from `start` back toward the start of the bitmap for an occupied
/// cell.
fn scan_backward(occ: &Vec<bool>, start: usize) -> (r: Option<usize>)
    requires
        start < occ.len(),
    ensures
        r matches Some(j) ==> j < occ@.len() && prev_occupied(occ@, start as int) == Some(
            j as int,
        ),
        r is None ==> prev_occupied(occ@, start as int) is None,
{
    let mut i: usize = start;
    loop
        invariant
            i <= start < occ.len(),
            prev_occupied(occ@, start as int) == prev_occupied(occ@, i as int),
        decreases i + 1,
    {
        if occ[i] {
            return Some(i);
        }
        if i == 0 {
            proof {
                assert(prev_occupied(occ@, -1) is None);
            }
            return None;
        }
        i = i - 1;
    }
}

impl GameMap {
    /// The map's standing invariant: fixed dimensions, and both the tile
    /// store and the occupancy bitmap sized to the playable area.
    pub open spec fn wf(self) -> bool {
        &&& self.width as int == MAP_WIDTH as int
        &&& self.height as int == MAP_HEIGHT as int
        &&& self.tiles@.len() == MAP_COUNT as int
        &&& self.occupied@.len() == MAP_COUNT as int
    }

    /// A fresh map: all floor tiles, no cell occupied.
    pub fn new() -> (r: GameMap)
        ensures
            r.wf(),
            forall|i: int| 0 <= i < MAP_COUNT as int ==> r.tiles@[i] == TileType::Floor,
            forall|i: int| 0 <= i < MAP_COUNT as int ==> r.occupied@[i] == false,
    {
        let mut tiles: Vec<TileType> = Vec::new();
        let mut occupied: Vec<bool> = Vec::new();
        let mut i: usize = 0;
        while i < MAP_COUNT
            invariant
                i <= MAP_COUNT,
                tiles@.len() == i as int,
                occupied@.len() == i as int,
                forall|j: int| 0 <= j < i as int ==> tiles@[j] == TileType::Floor,
                forall|j: int| 0 <= j < i as int ==> occupied@[j] == false,
            decreases MAP_COUNT - i,
        {
            tiles.push(TileType::Floor);
            occupied.push(false);
            i = i + 1;
        }
        GameMap { tiles, width: MAP_WIDTH as i32, height: MAP_HEIGHT as i32, occupied }
    }

    /// The row-major index of the cell at window coordinates `(x, y)`.
    pub fn xy_idx(&self, x: i32, y: i32) -> (r: usize)
        requires
            in_bounds(x as int, y as int),
        ensures
            r as int == flat_idx(x as int, y as int),
            r < MAP_COUNT,
    {
        let yy: usize = (y as usize) - MAP_PADDING_UP;
        let xx: usize = (x as usize) - MAP_PADDING_LEFT;
        proof {
            assert(MAP_WIDTH as int == 148);
            assert(MAP_COUNT as int == 12432);
            assert(yy as int <= 83 && xx as int <= 147);
        }
        yy * MAP_WIDTH + xx
    }

    /// The window coordinates of the cell with row-major index `idx`.
    pub fn idx_xy(&self, idx: usize) -> (r: (i32, i32))
        requires
            idx < MAP_COUNT,
        ensures
            in_bounds(r.0 as int, r.1 as int),
            flat_idx(r.0 as int, r.1 as int) == idx as int,
            r.0 == cell_x(idx as int),
            r.1 == cell_y(idx as int),
    {
        proof {
            vstd::arithmetic::div_mod::lemma_fundamental_div_mod(idx as int, MAP_WIDTH as int);
            vstd::arithmetic::div_mod::lemma_mod_division_less_than_divisor(
                idx as int,
                MAP_WIDTH as int,
            );
        }
        let x: usize = idx % MAP_WIDTH;
        let y: usize = idx / MAP_WIDTH;
        proof {
            assert(MAP_WIDTH as int == 148);
            assert(x as int == idx as int % 148);
            assert(y as int == idx as int / 148);
            assert(idx as int == 148 * (idx as int / 148) + idx as int % 148);
            assert(y as int <= 83);
        }
        ((x + MAP_PADDING_LEFT) as i32, (y + MAP_PADDING_UP) as i32)
    }

    /// Mark the cell at `(x, y)` as a building anchor.
    pub fn mark_occupied(&mut self, x: i32, y: i32)
        requires
            old(self).wf(),
            in_bounds(x as int, y as int),
        ensures
            final(self).wf(),
            final(self).occupied@ == old(self).occupied@.update(flat_idx(x as int, y as int), true),
            final(self).tiles@ == old(self).tiles@,
            final(self).width == old(self).width,
            final(self).height == old(self).height,
    {
        let idx = self.xy_idx(x, y);
        self.occupied.set(idx, true);
    }

    /// Jump the inspection cursor up: the nearest occupied cell
    /// scanning backward from the cell above, or stay put.
    pub fn nearest_occupied_up(&self, x: i32, y: i32) -> (r: (i32, i32))
        requires
            self.wf(),
            in_bounds(x as int, y as int),
        ensures
            r == cursor_up(self.occupied@, x, y),
            in_bounds(r.0 as int, r.1 as int),
    {
        if y == MAP_PADDING_UP as i32 {
            return (x, y);
        }
        let start = self.xy_idx(x, y - 1);
        match scan_backward(&self.occupied, start) {
            Some(j) => self.idx_xy(j),
            None => (x, y),
        }
    }

    /// Jump the inspection cursor down: the nearest occupied cell
    /// scanning forward from the cell below, or stay put.
    pub fn nearest_occupied_down(&self, x: i32, y: i32) -> (r: (i32, i32))
        requires
            self.wf(),
            in_bounds(x as int, y as int),
        ensures
            r == cursor_down(self.occupied@, x, y),
            in_bounds(r.0 as int, r.1 as int),
    {
        if y == (MAP_PADDING_UP + MAP_HEIGHT) as i32 - 1 {
            return (x, y);
        }
        let start = self.xy_idx(x, y + 1);
        match scan_forward(&self.occupied, start) {
            Some(j) => self.idx_xy(j),
            None => (x, y),
        }
    }

    /// Jump the inspection cursor left: the nearest occupied cell
    /// scanning backward from the previous cell, or stay put.
    pub fn nearest_occupied_left(&self, x: i32, y: i32) -> (r: (i32, i32))
        requires
            self.wf(),
            in_bounds(x as int, y as int),
        ensures
            r == cursor_left(self.occupied@, x, y),
            in_bounds(r.0 as int, r.1 as int),
    {
        let idx = self.xy_idx(x, y);
        if idx == 0 {
            return (x, y);
        }
        match scan_backward(&self.occupied, idx - 1) {
            Some(j) => self.idx_xy(j),
            None => (x, y),
        }
    }

    /// Jump the inspection cursor right: the nearest occupied cell
    /// scanning forward from the next cell, or stay put.
    pub fn nearest_occupied_right(&self, x: i32, y: i32) -> (r: (i32, i32))
        requires
            self.wf(),
            in_bounds(x as int, y as int),
        ensures
            r == cursor_right(self.occupied@, x, y),
            in_bounds(r.0 as int, r.1 as int),
    {
        let idx = self.xy_idx(x, y);
        match scan_forward(&self.occupied, idx + 1) {
            Some(j) => self.idx_xy(j),
            None => (x, y),
        }
    }

    /// The window coordinates of the first occupied cell in row-major
    /// order, if any cell is occupied.
    pub fn first_occupied(&self) -> (r: Option<(i32, i32)>)
        requires
            self.wf(),
        ensures
            r matches Some(p) ==> in_bounds(p.0 as int, p.1 as int) && (next_occupied(
                self.occupied@,
                0,
            ) matches Some(j) && p.0 == cell_x(j) && p.1 == cell_y(j) && flat_idx(
                p.0 as int,
                p.1 as int,
            ) == j),
            r is None ==> next_occupied(self.occupied@, 0) is None,
    {
        match scan_forward(&self.occupied, 0) {
            Some(j) => Some(self.idx_xy(j)),
            None => None,
        }
    }
}

} // verus!
