//! The crate's one source of randomness: the thread-local generator of the
//! `rand` crate, reached through a few trusted wrappers. Nothing can be
//! promised of a pseudorandom draw, so the wrappers carry no contracts;
//! every function that consumes a draw states what holds of every outcome.

use rand::Rng;
use vstd::prelude::*;

verus! {

#[verifier::external_type_specification]
#[verifier::external_body]
pub struct ExThreadRng(rand::rngs::ThreadRng);

/// Relies on rand's `Rng::gen::<u32>`: one pseudorandom 32-bit draw.
#[verifier::external_body]
pub(crate) fn rng_u32(rng: &mut rand::rngs::ThreadRng) -> u32 {
    rng.gen::<u32>()
}

/// Relies on rand's `Rng::gen::<u8>`: one pseudorandom byte.
#[verifier::external_body]
pub(crate) fn rng_u8(rng: &mut rand::rngs::ThreadRng) -> u8 {
    rng.gen::<u8>()
}

/// Relies on rand's `Rng::gen::<bool>`: one pseudorandom coin flip.
#[verifier::external_body]
pub(crate) fn rng_bool(rng: &mut rand::rngs::ThreadRng) -> bool {
    rng.gen::<bool>()
}

} // verus!
