//! The random number generator that the console draws from.

use rand::rngs::ThreadRng;
use rand::Rng;
use vstd::prelude::*;

verus! {

/// rand's handle to the thread-local generator. Nothing is known of what it
/// holds.
#[verifier::external_type_specification]
#[verifier::external_body]
pub struct ExThreadRng(ThreadRng);

/// Calls rand's `thread_rng`, which hands out a handle to the generator of
/// the current thread. Nothing is claimed of the handle. The call panics if
/// the operating system has no entropy to seed the generator with, which no
/// argument decides.
#[verifier::external_body]
pub(crate) fn thread_generator() -> ThreadRng {
    rand::thread_rng()
}

/// Calls rand's `Rng::gen_range` on the half-open range `low..high`. The
/// claim is the one of its documentation: the value lies in the range. Which
/// value it is depends on chance. An empty range, on which `gen_range`
/// panics, is left out.
#[verifier::external_body]
pub(crate) fn sample_range(rng: &mut ThreadRng, low: i32, high: i32) -> (value: i32)
    requires
        low < high,
    ensures
        low <= value < high,
{
    rng.gen_range(low..high)
}

} // verus!
