//! Core of a turn-based tactical battle game: units ("buds") carry stat
//! blocks and stacking status effects, move on a tile grid, attack through a
//! collision registry, and take turns in a fixed rotation until a win
//! condition ends the round. Rendering, input polling and asset loading are
//! left to a host framework; this crate holds the verified game rules.

pub mod arena;
pub mod assets;
pub mod bud;
pub mod bud_data;
pub mod collisions;
pub mod effects;
pub mod game_mode;
pub mod grid;
pub mod input;
pub mod map;
pub mod removal;
pub mod rng;
pub mod scene;
pub mod select;
pub mod state;
pub mod turns;
pub mod view;
pub mod weapon;
