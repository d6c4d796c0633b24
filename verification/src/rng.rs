use vstd::prelude::*;

use rand::{Rng, SeedableRng};

verus! {

#[verifier::external_type_specification]
#[verifier::external_body]
pub struct ExStdRng(rand::rngs::StdRng);

/// Relies on rand's `SeedableRng::seed_from_u64`: builds the generator from an
/// explicit seed, never from an ambient source, so a two-site run can be
/// replayed. Nothing is claimed about the values it will produce.
#[verifier::external_body]
pub(crate) fn seeded_rng(seed: u64) -> rand::rngs::StdRng {
    rand::rngs::StdRng::seed_from_u64(seed)
}

/// Relies on rand's `Rng::gen_range` over the non-empty range `1..11`: the
/// sample lies in that range whatever the generator's internal state, and a
/// non-empty range never panics.
#[verifier::external_body]
pub(crate) fn draw_batch_size(rng: &mut rand::rngs::StdRng) -> (r: usize)
    ensures
        1 <= r && r <= 10,
{
    rng.gen_range(1..11)
}

} // verus!
