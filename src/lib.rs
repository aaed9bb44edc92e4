//! An evolving-creature combat simulation: genomes are decoded into
//! decision trees, the trees are cached as eventually periodic thought
//! cycles, evaluated against the opponent, and fed through a round-based
//! combat and mating engine that breeds new genomes.

use vstd::prelude::*;

pub mod arena;
pub mod ast;
pub mod creatures;
pub mod dna;
pub mod eval;
pub mod lex;
pub mod parsing;
pub mod rng;
pub mod simplify;
pub mod stats;

verus! {

/// Instruction budget of one decode: reads beyond it fail the decode.
pub const MAX_THINKING_STEPS: usize = 100;

/// Deepest nesting of sub-conditions that a decode accepts.
pub const MAX_TREE_DEPTH: usize = 20;

/// Most items a creature can carry.
pub const MAX_INV_SIZE: usize = 3;

/// Energy of a fresh creature, and the cap on energy gains.
pub const DEFAULT_ENERGY: usize = 40;

/// Item value that a pair of creatures pays, split by shares, to mate.
pub const MATING_COST: usize = 40;

/// Largest codon value that names a token.
pub const MAX_GENE_VALUE: i8 = 8;

/// Default chance of a mutation in a child genome, in parts per million.
pub const DEFAULT_MUTATION_RATE_PPM: u32 = 100_000;

/// Energy a creature gains for eating a feeder.
pub const FEEDER_MEAL_ENERGY: usize = 1;

/// Energy a creature gains for killing another creature.
pub const VICTORY_ENERGY: usize = 10;

} // verus!
