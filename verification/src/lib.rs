//! A population of simple artificial organisms: bodies of unit cells in 2-D
//! space, genomes of additive genes, and a per-frame lifecycle of movement,
//! energy drain, aging, mutation and reproduction.
//!
//! Continuous quantities (positions, rates) are fixed-point integers with
//! [`num::UNIT`] subdivisions per unit, so every computation is exact.

pub mod genetics;
pub mod laws;
pub mod geometry;
pub mod num;
pub mod organism;
pub mod world;
