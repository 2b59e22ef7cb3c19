//! A genetic-programming treasure hunt: byte-programs for a tiny virtual
//! machine are evolved to collect treasures on a fixed grid.
//!
//! The crate holds the evaluation core: the instruction-set virtual machine
//! that executes a 64-byte genome against the grid, the fitness score, the
//! two parent-selection policies (roulette wheel and tournament), and the
//! bit-level crossover/mutation operator that produces offspring.

pub mod env;
pub mod genetics;
pub mod sampling;
pub mod vm;

pub use env::AREA_TILE_NOTHING;
pub use env::AREA_TILE_PLAYER;
pub use env::AREA_TILE_TREASURE;
pub use env::build_game_area;
pub use genetics::Chromosome;
pub use genetics::calculate_fitness;
pub use genetics::random_instructions;
pub use genetics::reproduce;
pub use genetics::roulette_walk;
pub use genetics::selection_roulette;
pub use genetics::selection_tournament;
pub use genetics::tournament_round;
pub use vm::Direction;
pub use vm::cyclic_decrement_u8;
pub use vm::cyclic_increment_u8;
pub use vm::run_virtual_machine;
