//! The source of random bytes.

use vstd::prelude::*;

verus! {

/// Draws a byte with `rand::random::<u8>()`, which takes it from the generator that
/// `rand` keeps for the calling thread. Nothing is claimed of the byte: two draws may
/// differ, and every value can come. `rand` panics if the operating system gives it no
/// seed for that generator.
#[verifier::external_body]
pub(crate) fn random_byte() -> u8 {
    rand::random::<u8>()
}

} // verus!
