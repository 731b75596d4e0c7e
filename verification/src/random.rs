//! The two draws that a chain takes from the thread-local random number
//! generator of the `rand` crate. Nothing in this file is proved: each
//! function states what is taken on trust from `rand`.

use rand::Rng;
use vstd::prelude::*;

verus! {

/// Draws 64 uniformly distributed bits with `rand::random::<u64>()`.
///
/// Nothing is claimed of the word that comes back: every `u64` may. Like any
/// use of `rand::thread_rng`, the call panics if the operating system cannot
/// seed the generator.
#[verifier::external_body]
pub(crate) fn random_word() -> (word: u64) {
    rand::random::<u64>()
}

/// Draws an index from the inclusive range `0..=last` with
/// `rand::Rng::gen_range` on `rand::thread_rng()`.
///
/// Claimed of the index: it lies in the range. `gen_range` panics on an empty
/// range only, and an inclusive range that starts at zero is never empty.
#[verifier::external_body]
pub(crate) fn random_index(last: u8) -> (index: u8)
    ensures
        index <= last,
{
    rand::thread_rng().gen_range(0..=last)
}

} // verus!
