//! A 2D falling-sand cellular automaton: a fixed-size grid of typed
//! particles (air, sand, water, stone) that evolves under per-step local
//! movement rules. Callers paint particles into the grid and advance the
//! simulation one tick at a time with `World::update`.

pub mod gridmath;
pub mod particle;
pub mod model;
pub mod rng;
pub mod sandworld;
