//! Simulation settings for large batches, with a chain ([`Algo`], built with
//! `Algo::new_empty`) that keeps no placeholder record in its history.
use vstd::prelude::*;

pub use super::random_walk_metropolis_hastings::{AcceptRecord, IPromiseThisIsNonZeroUsize, Rwmh as Algo};

verus! {

/// How a simulation advances when the user asks for more samples.
pub enum ProgressMode {
    Batched { size: IPromiseThisIsNonZeroUsize },
}

impl ProgressMode {
    /// The batch size of this mode.
    pub open spec fn batch_size(self) -> usize {
        match self {
            ProgressMode::Batched { size } => size.value(),
        }
    }
}

impl Clone for ProgressMode {
    fn clone(&self) -> (r: Self)
        ensures
            r.batch_size() == self.batch_size(),
    {
        match self {
            ProgressMode::Batched { size } => ProgressMode::Batched { size: size.clone() },
        }
    }
}

impl Default for ProgressMode {
    fn default() -> (r: Self)
        ensures
            r.batch_size() == 2000,
    {
        ProgressMode::Batched { size: IPromiseThisIsNonZeroUsize::new(2000) }
    }
}

} // verus!
