use vstd::prelude::*;
use crate::difficulties::difficulty::Difficulty;

verus! {

/// The word the query surface shows for `difficulty`: its lower-case name.
pub fn resolve(difficulty: &Difficulty) -> (word: String)
    ensures
        word@ == difficulty.name(),
{
    difficulty.to_string()
}

} // verus!
