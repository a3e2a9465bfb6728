//! Trusted boundary to the `rand` crate: the thread-local generator and a
//! bounded draw from it. Nothing is assumed of which value comes out, only
//! that it lies in the requested range.

use vstd::prelude::*;
use rand::Rng;

verus! {

#[verifier::external_type_specification]
#[verifier::external_body]
pub struct ExThreadRng(rand::rngs::ThreadRng);

/// Relies on rand::thread_rng, which hands out the calling thread's
/// lazily-seeded generator.
pub assume_specification[ rand::thread_rng ]() -> rand::rngs::ThreadRng;

/// Relies on rand::Rng::gen_range over `0..bound`: a value drawn uniformly
/// from that range, which must be non-empty.
#[verifier::external_body]
pub(crate) fn gen_below(rng: &mut rand::rngs::ThreadRng, bound: i16) -> (r: i16)
    requires
        0 < bound,
    ensures
        0 <= r < bound,
{
    rng.gen_range(0..bound)
}

} // verus!
