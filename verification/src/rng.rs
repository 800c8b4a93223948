//! The one randomness source of the library.

use vstd::prelude::*;

verus! {

/// Relies on rand::random_range (thread-local generator): a value drawn from
/// the given range, here `0..n`, so the result is always below `n`.  The
/// range must not be empty — the call panics on one — so `n` is positive.
/// Nothing more is assumed of the draw: every caller must cope with every
/// index.
#[verifier::external_body]
pub(crate) fn random_index_below(n: usize) -> (r: usize)
    requires
        n > 0,
    ensures
        r < n,
{
    rand::random_range(0..n)
}

} // verus!
