//! Player intents — the abstracted discrete inputs the state machine
//! consumes, one per tick — and the idle-mode input handler.

use vstd::prelude::*;

use crate::grid::{cell_x, cell_y, in_bounds, next_occupied, GameMap};
use crate::state::RunState;

verus! {

/// One abstracted player action. The input layer maps raw key events to
/// these; no key codes appear in the core.
#[derive(Clone, Copy, Debug, PartialEq, Eq, Structural)]
pub enum Intent {
    Up,
    Down,
    Left,
    Right,
    Select,
    Confirm,
    Cancel,
    Upgrade,
    Inspect,
}

/// The idle-mode transition: `select` opens the construction menu on
/// its first entry; the inspection trigger jumps to the first occupied
/// cell in row-major order, staying idle when nothing is placed; any
/// other input stays idle.
pub open spec fn player_input_spec(map: GameMap, intent: Option<Intent>) -> RunState {
    match intent {
        Some(Intent::Select) => RunState::ConstructionMenu { selected_idx: 0 },
        Some(Intent::Inspect) => match next_occupied(map.occupied@, 0) {
            Some(j) => RunState::ConstructionSelecting { x: cell_x(j), y: cell_y(j) },
            None => RunState::Idle,
        },
        _ => RunState::Idle,
    }
}

/// Handle one intent while idle.
pub fn player_input(map: &GameMap, intent: Option<Intent>) -> (r: RunState)
    requires
        map.wf(),
    ensures
        r == player_input_spec(*map, intent),
        r matches RunState::ConstructionSelecting { x, y } ==> in_bounds(x as int, y as int),
{
    match intent {
        Some(Intent::Select) => RunState::ConstructionMenu { selected_idx: 0 },
        Some(Intent::Inspect) => match map.first_occupied() {
            Some(p) => RunState::ConstructionSelecting { x: p.0, y: p.1 },
            None => RunState::Idle,
        },
        _ => RunState::Idle,
    }
}

} // verus!
