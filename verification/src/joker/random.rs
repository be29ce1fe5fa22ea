//! The source of randomness that abilities draw from.

use rand::rngs::StdRng;
use rand::Rng;
use vstd::prelude::*;

verus! {

/// The seedable generator `rand::rngs::StdRng`. It is handed in by the
/// caller, who decides how it is seeded; nothing is known of its state.
#[verifier::external_type_specification]
#[verifier::external_body]
pub struct ExStdRng(rand::rngs::StdRng);

/// Draws a number with `rand::Rng::random_range` on the inclusive range from
/// `low` to `high`.
///
/// Trusted: the number drawn lies in the range. The range must not be empty,
/// since `random_range` panics on an empty one. Which number is drawn depends
/// on the state of the generator, so nothing more is claimed.
#[verifier::external_body]
pub(crate) fn random_in_range(rng: &mut StdRng, low: u64, high: u64) -> (drawn: u64)
    requires
        low <= high,
    ensures
        low <= drawn <= high,
{
    rng.random_range(low..=high)
}

} // verus!
