//! The process-wide source of randomness.

use rand::RngCore;
use vstd::prelude::*;

verus! {

/// The number of bytes of a seed.
pub const SEED_LEN: usize = 32;

/// Overwrites the buffer with random bytes, by `fill_bytes` of the generator
/// that `rand::rng` hands to the calling thread. Nothing is claimed of the
/// bytes; the buffer keeps its length.
#[verifier::external_body]
pub(crate) fn fill_random(buffer: &mut [u8])
    ensures
        final(buffer)@.len() == old(buffer)@.len(),
{
    rand::rng().fill_bytes(buffer);
}

/// A fresh random seed of 32 bytes.
pub fn get_iv() -> (r: Vec<u8>)
    ensures
        r@.len() == SEED_LEN,
{
    let mut seed: Vec<u8> = vec![0u8; 32];
    fill_random(seed.as_mut_slice());
    seed
}

} // verus!
