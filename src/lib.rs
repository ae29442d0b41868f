//! Decision engine of the Orbitron planet: how the planet answers the
//! orchestrator and the explorers, spends its energy cells, and tries to
//! survive asteroids.

pub mod cells;
pub mod game;
pub mod laws;
pub mod orbitron;

pub use orbitron::Orbitron;
