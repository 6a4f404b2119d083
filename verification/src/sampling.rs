//! The boundary to the `rand` crate: the generator and distribution types the
//! draws go through, and one wrapper per `rand` function the generator calls.

use vstd::prelude::*;

use rand::distributions::Distribution;
use rand::distributions::WeightedError;
use rand::distributions::WeightedIndex;
use rand::rngs::StdRng;
use rand::seq::SliceRandom;
use rand::Rng;
use rand::SeedableRng;

use crate::values::weight_sum;

verus! {

/// The `rand` crate's standard generator, opaque to the verifier.
#[verifier::external_type_specification]
#[verifier::external_body]
pub struct ExStdRng(StdRng);

/// The error `WeightedIndex::new` reports on a malformed weight list.
#[verifier::external_type_specification]
#[verifier::external_body]
pub struct ExWeightedError(WeightedError);

/// A weighted discrete distribution over indexes; it holds the `rand` crate's
/// `WeightedIndex`, whose generic bounds Verus cannot declare directly.
#[verifier::external_body]
pub(crate) struct WeightDist {
    dist: WeightedIndex<u32>,
}

/// The weights a `WeightDist` was built from, in their original order.
pub uninterp spec fn weights_of(d: WeightDist) -> Seq<u32>;

/// Relies on `WeightedIndex::new`: it returns `Ok` exactly when the weights
/// are nonempty with a positive total. `new` sums the weights with plain
/// additions, so the requires keeps the total within `u32`.
#[verifier::external_body]
pub(crate) fn weighted_index_new(weights: &Vec<u32>) -> (r: Result<WeightDist, WeightedError>)
    requires
        weight_sum(weights@) <= u32::MAX,
    ensures
        (r matches Ok(d) ==> weights_of(d) == weights@),
        (r is Ok <==> (weights@.len() > 0 && exists|i: int|
            0 <= i < weights@.len() && weights@[i] > 0)),
{
    match WeightedIndex::new(weights.iter()) {
        Ok(dist) => Ok(WeightDist { dist }),
        Err(e) => Err(e),
    }
}

/// Relies on `WeightedIndex`'s `Distribution<usize>::sample`: the result
/// indexes the weights the distribution was built from, and an entry with
/// weight zero is never chosen.
#[verifier::external_body]
pub(crate) fn weighted_index_sample(d: &WeightDist, rng: &mut StdRng) -> (r: usize)
    requires
        weights_of(*d).len() > 0,
    ensures
        r < weights_of(*d).len(),
        weights_of(*d)[r as int] > 0,
{
    d.dist.sample(rng)
}

/// Relies on `Rng::gen_ratio(1, 2)`: a fair coin. Nothing can be promised of
/// a single outcome.
#[verifier::external_body]
pub(crate) fn coin_flip(rng: &mut StdRng) -> bool {
    rng.gen_ratio(1, 2)
}

/// Relies on `Rng::gen_range` over `0..n`: a uniform value below `n`. The
/// requires keeps the range nonempty, on which `gen_range` panics.
#[verifier::external_body]
pub(crate) fn gen_index(rng: &mut StdRng, n: usize) -> (r: usize)
    requires
        n > 0,
    ensures
        r < n,
{
    rng.gen_range(0..n)
}

/// Relies on `SliceRandom::choose`: `Some` of an element of the slice, and
/// `None` exactly when the slice is empty.
#[verifier::external_body]
pub(crate) fn choose_value(rng: &mut StdRng, values: &Vec<u64>) -> (r: Option<u64>)
    ensures
        (r matches Some(v) ==> values@.contains(v)),
        (r is Some <==> values@.len() > 0),
{
    values.as_slice().choose(rng).copied()
}

/// Relies on `StdRng::from_entropy`: a generator freshly seeded from the
/// operating system's entropy source; it aborts only if that source fails.
#[verifier::external_body]
pub(crate) fn rng_from_entropy() -> StdRng {
    StdRng::from_entropy()
}

} // verus!
