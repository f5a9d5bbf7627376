//! Random draws for spawn routes and directions.
use rand::Rng;
use vstd::prelude::*;

verus! {

/// Relies on rand::thread_rng and Rng::gen_range: a value drawn from `0..n`,
/// which panics only on an empty range.
#[verifier::external_body]
pub(crate) fn random_below(n: u32) -> (r: u32)
    requires
        n > 0,
    ensures
        r < n,
{
    rand::thread_rng().gen_range(0..n)
}

} // verus!
