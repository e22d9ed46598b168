//! Simulation core of a two-player twin-stick arena shooter.
//!
//! The library advances the whole world by one tick at a time: players,
//! bullets, enemies, the boss, power-ups and splatter particles. Every
//! quantity is an integer. Lengths, speeds and stick deflections are
//! fixed-point numbers counted in thousandths of a unit, angles are counted
//! in thousandths of a radian, and chance comes from a seeded generator that
//! the world owns, so a run can be replayed exactly.

pub mod engine;
pub mod game;
