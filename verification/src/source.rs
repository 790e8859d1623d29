//! The one place where randomness enters the library.

use rand::Rng;
use vstd::prelude::*;

verus! {

/// Draws the next word from a random source by `rand::Rng::gen::<u32>`.
///
/// Nothing is claimed of the word: it depends on the source and on what was
/// drawn from it before. A source that fails to deliver, as one that reads
/// the operating system's entropy may, stops the program inside this call.
#[verifier::external_body]
pub(crate) fn draw_word<R: Rng>(rng: &mut R) -> (word: u32) {
    rng.gen::<u32>()
}

} // verus!
