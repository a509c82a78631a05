//! Choosing the secret word from the candidate list.

use rand::seq::SliceRandom;
use vstd::prelude::*;

verus! {

/// Relies on rand's `SliceRandom::choose` on a `Vec` with `thread_rng`: it
/// returns `None` exactly when the slice is empty, and otherwise a reference
/// to one of its elements; which element comes back depends on the random
/// source alone.
#[verifier::external_body]
fn choose_random(words: &Vec<String>) -> (r: Option<String>)
    ensures
        r is None <==> words@.len() == 0,
        r matches Some(w) ==> exists|i: int| 0 <= i < words@.len() && words@[i] == w,
{
    words.choose(&mut rand::thread_rng()).cloned()
}

/// Picks the secret word for a new game: one element of `words`, chosen at
/// random, or `None` when the list is empty and no game can start.
pub fn select_word(words: &Vec<String>) -> (r: Option<String>)
    ensures
        r is None <==> words@.len() == 0,
        r matches Some(w) ==> words@.contains(w),
{
    choose_random(words)
}

} // verus!
