//! Cursor containment engine: keeps the pointer out of a rectangular screen
//! region, with the geometry, trajectory and push rules stated as contracts.

pub mod geometry;
pub mod text;
pub mod metrics;
pub mod trajectory;
pub mod push;
pub mod overlay;
pub mod barrier;
pub mod hook;
pub mod config;
pub mod hotkey;
pub mod config_watcher;
pub mod hud;
pub mod reload;
