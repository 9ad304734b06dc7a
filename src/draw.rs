//! Drawing from a caller-supplied pseudo-random source, so that a seeded
//! source makes every selection reproducible.

use vstd::prelude::*;

use rand::Rng;

verus! {

#[verifier::external_type_specification]
#[verifier::external_body]
pub struct ExStdRng(rand::rngs::StdRng);

/// Relies on rand's `Rng::gen_range` over `0..len`: it returns a value of that
/// half-open range, and panics when the range is empty.
#[verifier::external_body]
pub(crate) fn draw_below(rng: &mut rand::rngs::StdRng, len: usize) -> (r: usize)
    requires
        len > 0,
    ensures
        r < len,
{
    rng.gen_range(0..len)
}

} // verus!
