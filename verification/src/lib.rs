//! Verified core of an interactive Random-Walk-Metropolis-Hastings sampler:
//! the bookkeeping of the Markov chain, the choice and seeding of its random
//! number generators, and the communication with the background jobs and
//! tasks that run it.
pub mod bg_task;
pub mod helpers;
pub mod settings;
pub mod simulation;
pub mod visualizations;
