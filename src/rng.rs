use vstd::prelude::*;
use rand::rngs::SmallRng;
use rand::{Rng, SeedableRng};

verus! {

#[verifier::external_type_specification]
#[verifier::external_body]
pub struct ExSmallRng(SmallRng);

/// Relies on rand's `SeedableRng::seed_from_u64` for `SmallRng`: a generator
/// built from the seed alone.  rand documents its stream as fixed by the seed
/// on one platform and one version of rand only, so nothing is stated of it.
#[verifier::external_body]
pub(crate) fn seeded_rng(seed: u64) -> SmallRng {
    SmallRng::seed_from_u64(seed)
}

/// Relies on rand's `Rng::random_range` on `lo..hi`: the value lies in the
/// half-open range; it panics only on an empty range, which `requires` excludes.
#[verifier::external_body]
pub(crate) fn draw_in_range(rng: &mut SmallRng, lo: u32, hi: u32) -> (r: u32)
    requires
        lo < hi,
    ensures
        lo <= r < hi,
{
    rng.random_range(lo..hi)
}

} // verus!
