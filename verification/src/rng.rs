//! The seedable random source the spawner draws from. The simulation
//! takes a caller-owned generator so a match can be reproduced from a
//! seed; of each draw the library assumes only its range.

use vstd::prelude::*;

verus! {

#[verifier::external_type_specification]
#[verifier::external_body]
pub struct ExStdRng(rand::rngs::StdRng);

/// Relies on rand's `Rng::gen_range` over the half-open range
/// `lo..hi`: it returns a value of that range and panics only when the
/// range is empty.
#[verifier::external_body]
pub(crate) fn rand_range_i64(rng: &mut rand::rngs::StdRng, lo: i64, hi: i64) -> (r: i64)
    requires
        lo < hi,
    ensures
        lo <= r < hi,
{
    rand::Rng::gen_range(rng, lo..hi)
}

} // verus!
