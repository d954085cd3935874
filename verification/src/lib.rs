//! Game rules of Edgard in Kimeria, a 2D platformer: localisation, level
//! rotation, contact resolution decisions, the player's routines, enemy
//! reactions, trigger wiring, the clip table, sprite-sheet layout and playback,
//! and menu navigation.
//!
//! Positions, velocities and timers are floating point and live with the
//! engine; this crate decides what happens from the facts the engine measures
//! (which boxes overlap, which way something moves, whether an animation has
//! ended) and says so in each function's contract.

pub mod actor;
pub mod animation;
pub mod assets;
pub mod capture;
pub mod clips;
pub mod collision;
pub mod enemy;
pub mod items;
pub mod level;
pub mod localization;
pub mod menu;
pub mod objects;
pub mod player;
pub mod state;
