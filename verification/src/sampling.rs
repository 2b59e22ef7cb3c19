use vstd::prelude::*;

verus! {

/// Declares rand_pcg's PCG-64 generator (`Lcg128Xsl64`, which the crate
/// aliases as `Pcg64`) so that the one generator instance can be threaded
/// explicitly through every function that draws randomness.
#[verifier::external_type_specification]
#[verifier::external_body]
pub struct ExLcg128Xsl64(rand_pcg::Lcg128Xsl64);

/// Relies on rand's `Rng::gen_range` over `0..=u8::MAX`: a draw from the
/// full 8-bit range. Nothing is promised of a random value.
#[verifier::external_body]
pub(crate) fn rand_byte(rng: &mut rand_pcg::Pcg64) -> u8 {
    rand::Rng::gen_range(rng, 0..=u8::MAX)
}

/// Relies on rand's `Rng::gen_range` over `0..n`: a draw below `n`. The
/// range may not be empty (`gen_range` panics on one), so `n` is positive.
#[verifier::external_body]
pub(crate) fn rand_index(rng: &mut rand_pcg::Pcg64, n: usize) -> (r: usize)
    requires
        n >= 1,
    ensures
        r < n,
{
    rand::Rng::gen_range(rng, 0..n)
}

/// Relies on rand's `Rng::gen_range` over `0..=max`: a draw of at most
/// `max`.
#[verifier::external_body]
pub(crate) fn rand_at_most(rng: &mut rand_pcg::Pcg64, max: u64) -> (r: u64)
    ensures
        r <= max,
{
    rand::Rng::gen_range(rng, 0..=max)
}

/// Relies on rand's `Rng::gen_range` over `0..1_000_000`: a uniform draw
/// in parts per million, so always below one million.
#[verifier::external_body]
pub(crate) fn rand_ppm(rng: &mut rand_pcg::Pcg64) -> (r: u32)
    ensures
        r < 1_000_000,
{
    rand::Rng::gen_range(rng, 0..1_000_000u32)
}

} // verus!
