pub mod algo;
pub mod random_walk_metropolis_hastings;
pub mod rngs;
