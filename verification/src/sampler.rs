//! The source of randomness: uniform draws from the thread's generator.
//!
//! Nothing here is proved. The contracts state what the `rand` crate
//! documents, and the verified code relies on nothing else.
use vstd::prelude::*;

verus! {

/// The handle to the calling thread's random number generator.
#[verifier::external_type_specification]
#[verifier::external_body]
pub struct ExThreadRng(rand::rngs::ThreadRng);

/// `rand::rng` hands out a handle to the thread's generator. Nothing is
/// claimed of the handle.
pub assume_specification[ rand::rng ]() -> (generator: rand::rngs::ThreadRng);

/// `rand::Rng::random_range` on the half-open range `low..high` of `i32`: the
/// value drawn lies in the range. The range must not be empty, or the call
/// panics. Which value comes is not stated: two draws may differ.
#[verifier::external_body]
pub(crate) fn uniform(generator: &mut rand::rngs::ThreadRng, low: i32, high: i32) -> (v: i32)
    requires
        low < high,
    ensures
        low <= v < high,
{
    rand::Rng::random_range(generator, low..high)
}

} // verus!
