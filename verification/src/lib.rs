//! Evolutionary search for a sequence of grid moves that carries an agent
//! from a start cell to a target cell on a bounded square grid with static
//! obstacles. A population of fixed-length move sequences ("genomes") is
//! repeatedly simulated against the grid, scored by proximity to the target,
//! and rebuilt by fitness-proportionate selection, crossover, and mutation.

pub mod engine;
pub mod fitness;
pub mod grid;
pub mod population;
pub mod rng;
pub mod select;
pub mod unit;
