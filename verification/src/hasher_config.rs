use vstd::prelude::*;

verus! {

/// What hashing of dependencies favours.
#[derive(Clone, Copy, Debug, PartialEq, Eq, Structural)]
pub enum HasherOptimization {
    Accuracy,
    Performance,
}

impl Default for HasherOptimization {
    fn default() -> (optimization: Self)
        ensures
            optimization == HasherOptimization::Accuracy,
    {
        HasherOptimization::Accuracy
    }
}

/// How the files to hash are found.
#[derive(Clone, Copy, Debug, PartialEq, Eq, Structural)]
pub enum HasherWalkStrategy {
    Glob,
    Vcs,
}

impl Default for HasherWalkStrategy {
    fn default() -> (strategy: Self)
        ensures
            strategy == HasherWalkStrategy::Vcs,
    {
        HasherWalkStrategy::Vcs
    }
}

/// How the workspace hashes the inputs of its tasks.
#[derive(Clone, Copy, Debug, PartialEq, Eq, Structural)]
pub struct HasherConfig {
    /// How many files are hashed at once.
    pub batch_size: u16,
    pub optimization: HasherOptimization,
    pub walk_strategy: HasherWalkStrategy,
    pub warn_on_missing_inputs: bool,
}

impl Default for HasherConfig {
    /// Batches of 2500 files, found through version control, hashed for
    /// accuracy, with a warning for each input that is missing.
    fn default() -> (config: Self)
        ensures
            config.batch_size == 2500,
            config.optimization == HasherOptimization::Accuracy,
            config.walk_strategy == HasherWalkStrategy::Vcs,
            config.warn_on_missing_inputs,
    {
        HasherConfig {
            batch_size: 2500,
            optimization: HasherOptimization::Accuracy,
            walk_strategy: HasherWalkStrategy::Vcs,
            warn_on_missing_inputs: true,
        }
    }
}

} // verus!
