//! Randomness for the game rules, behind two small trusted wrappers.

use vstd::prelude::*;
use rand::Rng;

verus! {

/// Relies on rand::Rng::random_range over `0..n`: it returns a value of the
/// given range and panics only when the range is empty.
#[verifier::external_body]
pub(crate) fn rand_below(n: usize) -> (r: usize)
    requires
        n > 0,
    ensures
        r < n,
{
    rand::rng().random_range(0..n)
}

/// Relies on rand::Rng::random_range over `lo..=hi`: it returns a value of
/// the given range and panics only when the range is empty.
#[verifier::external_body]
pub(crate) fn rand_between(lo: u8, hi: u8) -> (r: u8)
    requires
        lo <= hi,
    ensures
        lo <= r <= hi,
{
    rand::rng().random_range(lo..=hi)
}

} // verus!
