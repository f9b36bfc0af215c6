//! The single source of randomness the strategies draw from.

use vstd::prelude::*;

verus! {

/// Relies on rand::random_range with the range `0..n`: a uniform draw below
/// the bound from the thread-local generator.  The call panics only on an
/// empty range, which the bound on `n` excludes.
#[verifier::external_body]
pub(crate) fn rand_below(n: u32) -> (r: u32)
    requires
        n > 0,
    ensures
        r < n,
{
    rand::random_range(0..n)
}

} // verus!
