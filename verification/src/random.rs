//! The source of randomness: the thread-local generator of the `rand` crate.
//!
//! Nothing in this file is proved. The contracts state what the
//! documentation of `rand` promises of every draw, and no more.

use vstd::prelude::*;
use rand::Rng;

verus! {

/// `rand::rngs::ThreadRng`, a handle to the generator of the current
/// thread. Its state is hidden from the verifier.
#[verifier::external_type_specification]
#[verifier::external_body]
pub struct ExThreadRng(rand::rngs::ThreadRng);

/// `rand::thread_rng` hands out the handle. Nothing is claimed of it. The
/// first call on a thread seeds the generator from the operating system
/// and panics where the system has no entropy to give.
pub assume_specification[ rand::thread_rng ]() -> (rng: rand::rngs::ThreadRng)
;

/// `Rng::gen_ratio` on the thread-local generator: a bit that is `true`
/// with a chance of `numerator` in `denominator`.
///
/// The call panics when the denominator is zero or smaller than the
/// numerator, so both are required not to be. Of the bit itself only the
/// two certain cases are claimed: it is `true` when the chance is one and
/// `false` when the chance is zero.
#[verifier::external_body]
pub(crate) fn gen_ratio(rng: &mut rand::rngs::ThreadRng, numerator: u32, denominator: u32) -> (bit:
    bool)
    requires
        denominator > 0,
        numerator <= denominator,
    ensures
        numerator == denominator ==> bit,
        numerator == 0 ==> !bit,
{
    rng.gen_ratio(numerator, denominator)
}

} // verus!
