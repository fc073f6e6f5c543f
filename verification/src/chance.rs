use rand::rngs::ThreadRng;
use rand::Rng;
use vstd::prelude::*;

verus! {

#[verifier::external_type_specification]
#[verifier::external_body]
pub struct ExThreadRng(ThreadRng);

/// `rand::thread_rng` hands out the random number generator of the calling
/// thread. Nothing is claimed of the generator.
pub assume_specification[ rand::thread_rng ]() -> (rng: ThreadRng);

/// `Rng::gen_range` over `0..len`, which draws one index of the range. The
/// call panics on an empty range, so `len` must be positive. Which index
/// comes out is left open; only that it lies in the range is claimed.
#[verifier::external_body]
pub(crate) fn index_below(rng: &mut ThreadRng, len: usize) -> (index: usize)
    requires
        len > 0,
    ensures
        index < len,
{
    rng.gen_range(0..len)
}

} // verus!
