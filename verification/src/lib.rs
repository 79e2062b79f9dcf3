//! Game rules of a first-person arena shooter: player vitals, power-up cards,
//! the arm attack cycle, enemy waves, trophies and HUD texts.
//!
//! Rendering, physics in floating point, input polling and the ECS plumbing
//! live in the application; this crate holds the decisions it takes.

pub mod timekeeping;
pub mod card;
pub mod player;
pub mod attack;
pub mod enemy;
pub mod hierarchy;
pub mod text;
pub mod scene;
pub mod ui;
pub mod camera;
pub mod laws;
