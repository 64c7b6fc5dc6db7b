//! The random byte source of `Cxkk`: rand's thread-local generator.
use rand::Rng;
use vstd::prelude::*;

verus! {

/// rand's thread-local generator, carried by the machine and opaque to proofs.
#[verifier::external_type_specification]
#[verifier::external_body]
pub struct ExThreadRng(rand::rngs::ThreadRng);

/// Relies on `rand::thread_rng`, which hands out a handle to this thread's
/// generator; nothing is stated of it.
pub assume_specification[ rand::thread_rng ]() -> rand::rngs::ThreadRng;

/// Relies on `rand::Rng::gen::<u8>`: a byte drawn uniformly, so any byte
/// may come back and nothing is stated of it.
#[verifier::external_body]
pub(crate) fn random_byte(rng: &mut rand::rngs::ThreadRng) -> u8 {
    rng.gen::<u8>()
}

} // verus!
