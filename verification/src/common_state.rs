use vstd::prelude::*;

verus! {

/// What the cache remembers of one kind of run: the hash it last saw, and
/// the file that the state is kept in. The file's path is not part of what
/// is stored.
#[derive(Debug, PartialEq, Eq)]
pub struct CommonState {
    pub last_hash: String,
    pub path: String,
}

impl Default for CommonState {
    fn default() -> (state: Self)
        ensures
            state.last_hash@.len() == 0,
            state.path@.len() == 0,
    {
        CommonState { last_hash: String::new(), path: String::new() }
    }
}

} // verus!
