use vstd::prelude::*;

verus! {

/// Calls `fastrand::i64` with the inclusive range `lo..=hi` (the thread-local
/// generator). Trusted: the crate documents a value within the range, and a
/// panic only for an empty range, which `requires` leaves out. Which value
/// comes back is left open: it is random.
#[verifier::external_body]
pub(crate) fn random_i64_in(lo: i64, hi: i64) -> (r: i64)
    requires
        lo <= hi,
    ensures
        lo <= r <= hi,
{
    fastrand::i64(lo..=hi)
}

/// Calls `fastrand::u32` with the inclusive range `lo..=hi` (the thread-local
/// generator). Trusted: the crate documents a value within the range, and a
/// panic only for an empty range, which `requires` leaves out. Which value
/// comes back is left open: it is random.
#[verifier::external_body]
pub(crate) fn random_u32_in(lo: u32, hi: u32) -> (r: u32)
    requires
        lo <= hi,
    ensures
        lo <= r <= hi,
{
    fastrand::u32(lo..=hi)
}

} // verus!
