//! Weighted random choice, as this crate uses it.
//!
//! The distribution and the generator are `rand`'s. The contracts in this
//! file restate what that crate's source shows and are not proved.

use rand::distributions::{Distribution, WeightedIndex};
use rand::rngs::SmallRng;
use rand::SeedableRng;
use vstd::prelude::*;

verus! {

/// A choice among indices, each with a weight: `rand`'s `WeightedIndex`
/// over `u32` weights.
#[verifier::external_body]
#[derive(Debug)]
pub struct Weighted {
    inner: WeightedIndex<u32>,
}

#[verifier::external_type_specification]
#[verifier::external_body]
pub struct ExSmallRng(SmallRng);

/// The sum of the weights.
pub open spec fn total_weight(weights: Seq<u32>) -> int
    decreases weights.len(),
{
    if weights.len() == 0 {
        0
    } else {
        total_weight(weights.drop_last()) + weights.last()
    }
}

/// The weights that a distribution was made from, in their order.
pub uninterp spec fn distribution_weights(d: Weighted) -> Seq<u32>;

/// `WeightedIndex::new`: a distribution over the indices of `weights`. There
/// is none where `weights` is empty or sums to zero. A sum beyond `u32` is
/// left out: the outside code adds the weights up in a `u32`.
#[verifier::external_body]
pub(crate) fn distribution_new(weights: &Vec<u32>) -> (d: Option<Weighted>)
    requires
        total_weight(weights@) <= u32::MAX,
    ensures
        d.is_some() == (weights@.len() > 0 && total_weight(weights@) > 0),
        d.is_some() ==> distribution_weights(d.unwrap()) == weights@,
{
    match WeightedIndex::new(weights) {
        Ok(inner) => Some(Weighted { inner }),
        Err(_) => None,
    }
}

/// `WeightedIndex::sample`: an index of the weights, drawn with the
/// generator. Which one is not said; whichever it is, its weight is not zero.
#[verifier::external_body]
pub(crate) fn distribution_sample(d: &Weighted, rng: &mut SmallRng) -> (index: usize)
    ensures
        index < distribution_weights(*d).len(),
        distribution_weights(*d)[index as int] > 0,
{
    d.inner.sample(rng)
}

/// `WeightedIndex::clone`: a distribution over the same weights.
#[verifier::external_body]
pub(crate) fn distribution_clone(d: &Weighted) -> (copy: Weighted)
    ensures
        distribution_weights(copy) == distribution_weights(*d),
{
    Weighted { inner: d.inner.clone() }
}

/// `SmallRng::clone`: a generator in the same state.
#[verifier::external_body]
pub(crate) fn rng_clone(rng: &SmallRng) -> SmallRng {
    rng.clone()
}

/// `SeedableRng::from_entropy`: a generator seeded by the operating system.
#[verifier::external_body]
pub(crate) fn rng_from_entropy() -> SmallRng {
    SmallRng::from_entropy()
}

} // verus!
