//! The external collaborator's container: the population and the grid size.
//! The world appends returned offspring, evicts organisms reported dead, and
//! advances each organism once per tick; organisms never read each other's
//! state.

use vstd::prelude::*;

use crate::organism::Organism;

verus! {

/// The extent of the world grid, in whole cells per axis.
#[derive(Debug, PartialEq, Eq, Structural, Clone, Copy)]
pub struct GridExtent {
    pub x: usize,
    pub y: usize,
}

/// A population of organisms on a finite grid.
pub struct World {
    pub organisms: Vec<Organism>,
    pub size: GridExtent,
}

} // verus!
