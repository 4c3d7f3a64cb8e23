//! Trusted boundary to the random number generator.  The spawner draws
//! quadrants and positions here; everything done with a draw is verified
//! for every value the contract below allows.

use vstd::prelude::*;

verus! {

/// `rand::rngs::ThreadRng`, declared so that a handle to the thread-local
/// generator can pass through verified code; its value is opaque here.
#[verifier::external_type_specification]
#[verifier::external_body]
pub struct ExThreadRng(rand::rngs::ThreadRng);

/// Relies on rand's `thread_rng`: hands out the thread-local generator.
/// Nothing is promised of the handle itself; every draw made with it is
/// specified at `rng_range`.
#[verifier::external_body]
pub(crate) fn fresh_rng() -> rand::rngs::ThreadRng {
    rand::thread_rng()
}

/// Relies on rand's `Rng::gen_range` on the half-open range `lo..hi`: the
/// result lies in that range, and the call panics only on an empty range,
/// which the precondition rules out.  Nothing more is promised — the draw
/// is random, so callers must cope with every value in the range.
#[verifier::external_body]
pub(crate) fn rng_range(rng: &mut rand::rngs::ThreadRng, lo: i64, hi: i64) -> (r: i64)
    requires
        lo < hi,
    ensures
        lo <= r < hi,
{
    rand::Rng::gen_range(rng, lo..hi)
}

} // verus!
