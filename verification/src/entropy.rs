use vstd::prelude::*;

verus! {

/// Relies on rand::random_range over `lo..=hi`: returns a value of the
/// nonempty inclusive range.  Which value comes back is left open.
#[verifier::external_body]
pub(crate) fn random_in_range(lo: u64, hi: u64) -> (r: u64)
    requires
        lo <= hi,
    ensures
        lo <= r <= hi,
{
    rand::random_range(lo..=hi)
}

/// Relies on rand::random_range over `0..n`: returns a value below `n`.
#[verifier::external_body]
pub(crate) fn random_below(n: u64) -> (r: u64)
    requires
        n > 0,
    ensures
        r < n,
{
    rand::random_range(0..n)
}

/// Relies on nanoid::format with the URL-safe 64-character alphabet, which
/// appends exactly one character per requested position.
#[verifier::external_body]
pub(crate) fn random_id_of_len(size: usize) -> (r: String)
    ensures
        r@.len() == size,
{
    nanoid::format(nanoid::rngs::default, &nanoid::alphabet::SAFE, size)
}

} // verus!
