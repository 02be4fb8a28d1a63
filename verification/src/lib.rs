//! Core engine of a grid-based city builder: a data-driven building
//! catalog, per-player resource pools accrued over wall-clock seconds,
//! placement validity on an occupancy grid, and the modal interaction
//! state machine that ties them together.

pub mod catalog;
pub mod clock;
pub mod components;
pub mod control;
pub mod grid;
pub mod gui;
pub mod rect;
pub mod resource_system;
pub mod spawner;
pub mod state;
pub mod utils;
