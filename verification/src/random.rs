//! The source of chance: an outside generator, of which the library knows
//! only the range of what it draws.

use vstd::prelude::*;

verus! {

/// The generator of the `fastrand` crate. Nothing inside it is visible here.
#[verifier::external_type_specification]
#[verifier::external_body]
pub struct ExRng(fastrand::Rng);

/// Calls `fastrand::Rng::new`, which seeds a generator from the thread-local
/// one. Nothing is claimed of the generator that comes back.
#[verifier::external_body]
pub(crate) fn fresh_generator() -> fastrand::Rng {
    fastrand::Rng::new()
}

/// Calls `fastrand::Rng::usize` on the range from zero up to, not including,
/// `bound`. The call panics on an empty range, so `bound` must be positive;
/// the number drawn lies in the range. Which number it is depends on the
/// state of the generator, so two calls may differ.
#[verifier::external_body]
pub(crate) fn draw_below(rng: &fastrand::Rng, bound: usize) -> (n: usize)
    requires
        bound > 0,
    ensures
        n < bound,
{
    rng.usize(0..bound)
}

} // verus!
