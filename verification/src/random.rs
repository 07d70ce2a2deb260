//! The one source of chance: `rand`'s thread-local generator.

use rand::rngs::ThreadRng;
use rand::Rng;
use vstd::prelude::*;

verus! {

/// `rand::rngs::ThreadRng`, carried through as an opaque value.
#[verifier::external_type_specification]
#[verifier::external_body]
pub struct ExThreadRng(ThreadRng);

/// `rand::thread_rng` hands out the calling thread's generator, which the
/// system seeds on first use; it panics only where the system gives no seed.
/// Nothing is claimed of the generator.
pub assume_specification[ rand::thread_rng ]() -> (rng: ThreadRng);

/// `Rng::gen_range` on the half-open range `low..high`, which panics on an
/// empty range: hence the `requires`. Claimed of the sample is only that it
/// lies in the range, which holds of every outcome.
#[verifier::external_body]
pub(crate) fn gen_range(rng: &mut ThreadRng, low: i32, high: i32) -> (sample: i32)
    requires
        low < high,
    ensures
        low <= sample < high,
{
    rng.gen_range(low..high)
}

} // verus!
