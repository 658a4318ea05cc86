//! A TGM-style falling-block game: rotation systems, the per-tick game
//! state machine, scoring and grading, menus and the hi-score table.

pub mod board;
pub mod data;
pub mod rng;
pub mod rotation_system;
pub mod constants;
pub mod judge;
pub mod hiscores;
pub mod randomizer;
pub mod game;
pub mod hud;
pub mod snapshot;
pub mod diagram;
pub mod menu;
pub mod audio;
pub mod storage;
pub mod app_state;
pub mod input;
pub mod debug;
pub mod overlay;
pub mod grade_order;
pub mod shape_diagrams;
