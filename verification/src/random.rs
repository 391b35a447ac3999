//! Generation of buffers of random byte content.
//!
//! The draws themselves come from `rand`'s thread-local generator; the loop
//! that fills a buffer is verified. A draw ranges over the whole of `u8`, so
//! nothing is promised of any single byte.

use rand::Rng;
use vstd::prelude::*;

verus! {

#[verifier::external_type_specification]
#[verifier::external_body]
pub struct ExThreadRng(rand::rngs::ThreadRng);

/// Relies on `rand::thread_rng`: it hands out the thread-local generator.
#[verifier::external_body]
fn new_rng() -> rand::rngs::ThreadRng {
    rand::thread_rng()
}

/// Relies on `rand::Rng::gen`: a byte drawn from the whole range of `u8`.
/// Nothing can be promised of a random value.
#[verifier::external_body]
fn random_byte(rng: &mut rand::rngs::ThreadRng) -> u8 {
    rng.gen()
}

/// Fills a fresh buffer with `size` random bytes.
pub fn random_value_array(size: usize) -> (r: Vec<u8>)
    ensures
        r@.len() == size,
{
    let mut vec: Vec<u8> = Vec::new();
    let mut rng = new_rng();
    let mut n: usize = 0;
    while n < size
        invariant
            n <= size,
            vec@.len() == n,
        decreases size - n,
    {
        let b = random_byte(&mut rng);
        vec.push(b);
        n += 1;
    }
    vec
}

} // verus!
