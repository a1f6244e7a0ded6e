//! Tick-based production and energy allocation engine for a grid-based
//! colony simulation.
//!
//! Structures (bases, power plants, mines, storages, factories, refineries)
//! are assembled from capability components and visited once per simulation
//! tick by an engine that drives five ordered passes over two global
//! ledgers: a pooled energy account and a per-kind material account.

pub mod component;
pub mod game;
pub mod kinds;
pub mod laws;
pub mod managers;
pub mod structures;
pub mod text;
pub mod tick;
pub mod util;
