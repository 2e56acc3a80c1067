//! The two entry points into the process-wide random number generator.
//! Everything else in the crate is deterministic in the values drawn here.

use vstd::prelude::*;
use rand::Rng;

verus! {

/// Relies on `rand::Rng::gen_range` over `0..n`: a draw below `n`.
/// `gen_range` panics only on an empty range, which `requires` excludes.
#[verifier::external_body]
pub(crate) fn rand_below(n: u8) -> (r: u8)
    requires
        n > 0,
    ensures
        r < n,
{
    rand::thread_rng().gen_range(0..n)
}

/// Relies on `rand::random::<bool>`: a coin flip. Nothing is promised of
/// the value; callers must be correct for both outcomes.
#[verifier::external_body]
pub(crate) fn rand_bool() -> bool {
    rand::random::<bool>()
}

} // verus!
