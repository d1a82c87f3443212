use rand::rngs::ThreadRng;
use rand::Rng;
use vstd::prelude::*;

verus! {

/// `rand::rngs::ThreadRng`, the handle to the generator that `rand` keeps
/// for each thread. Nothing is known of what it holds.
#[verifier::external_type_specification]
#[verifier::external_body]
pub struct ExThreadRng(rand::rngs::ThreadRng);

/// `rand::thread_rng` hands out the handle to the calling thread's
/// generator. Nothing is claimed of the handle.
pub assume_specification[ rand::thread_rng ]() -> (rng: ThreadRng);

/// Calls `rand::Rng::gen_range(low, high)` for a byte. The range is
/// half-open: the sample is at least `low` and below `high`. The call
/// panics where `low >= high`, which `requires` leaves out. Nothing else is
/// known of the sample, and two calls may differ.
#[verifier::external_body]
pub(crate) fn gen_range(rng: &mut ThreadRng, low: u8, high: u8) -> (sample: u8)
    requires
        low < high,
    ensures
        low <= sample < high,
{
    rng.gen_range(low, high)
}

} // verus!
