//! Random draws from optional ranges and weighted choice.

use crate::error::WeightFault;
use rand::distributions::WeightedError;
use rand::seq::SliceRandom;
use rand::Rng;
use vstd::prelude::*;

verus! {

/// A range with both bounds set and the minimum above the maximum: nothing
/// can be drawn from it.
#[derive(Clone, Copy, Debug, PartialEq, Eq, Structural)]
pub struct EmptyRange;

/// Whether the bounds leave no value to draw.
pub open spec fn range_is_empty(min: Option<int>, max: Option<int>) -> bool {
    min matches Some(lo) && max matches Some(hi) && lo > hi
}

/// Whether `drawn` is an outcome that the bounds allow: nothing where
/// neither is set, the one bound where only one is set, a value between them
/// where both are.
pub open spec fn draw_admits(min: Option<int>, max: Option<int>, drawn: Option<int>) -> bool {
    match (min, max) {
        (None, None) => drawn is None,
        (None, Some(v)) => drawn == Some(v),
        (Some(v), None) => drawn == Some(v),
        (Some(lo), Some(hi)) => drawn matches Some(v) && lo <= v <= hi,
    }
}

/// An optional machine integer as an optional mathematical one.
pub open spec fn wide(v: Option<i64>) -> Option<int> {
    match v {
        Some(x) => Some(x as int),
        None => None,
    }
}

/// An optional 32-bit integer as an optional mathematical one.
pub open spec fn wide32(v: Option<i32>) -> Option<int> {
    match v {
        Some(x) => Some(x as int),
        None => None,
    }
}

/// Calls `rand::Rng::gen_range` on `rand::thread_rng()` with the inclusive
/// range from `low` to `high`.
///
/// Believed, not proved: the value lies in the range. The call panics on an
/// empty range, which the precondition leaves out.
#[verifier::external_body]
fn uniform(low: i64, high: i64) -> (value: i64)
    requires
        low <= high,
    ensures
        low <= value <= high,
{
    rand::thread_rng().gen_range(low..=high)
}

/// Calls `rand::Rng::gen_ratio` on `rand::thread_rng()`.
///
/// Believed, not proved: a ratio of zero never hits and a ratio of one always
/// does. The call panics on a zero denominator and on a numerator above the
/// denominator, which the precondition leaves out.
#[verifier::external_body]
fn bernoulli(numerator: u32, denominator: u32) -> (hit: bool)
    requires
        denominator > 0,
        numerator <= denominator,
    ensures
        numerator == 0 ==> !hit,
        numerator == denominator ==> hit,
{
    rand::thread_rng().gen_ratio(numerator, denominator)
}

/// An item of a weighted choice: a position in a list and its weight.
#[derive(Clone, Copy, Debug, PartialEq, Eq, Structural)]
pub struct Candidate {
    pub position: usize,
    pub weight: i64,
}

/// The sum of the weights of a list of candidates.
pub open spec fn total_weight(candidates: Seq<Candidate>) -> int
    decreases candidates.len(),
{
    if candidates.len() == 0 {
        0
    } else {
        total_weight(candidates.drop_last()) + candidates.last().weight
    }
}

/// Whether no candidate has a negative weight.
pub open spec fn weights_valid(candidates: Seq<Candidate>) -> bool {
    forall|k: int| 0 <= k < candidates.len() ==> (#[trigger] candidates[k]).weight >= 0
}

/// Calls `rand::seq::SliceRandom::choose_weighted` on the candidates, with
/// `rand::thread_rng()` and each candidate's `weight` as its weight.
///
/// Believed, not proved: an empty list and a list of zero weights are
/// refused, each with its own fault, and any other list yields one of its
/// candidates, of a weight above zero. The call adds the weights up as
/// machine integers, so the precondition keeps their sum in range.
#[verifier::external_body]
fn choose_weighted(candidates: &Vec<Candidate>) -> (result: Result<Candidate, WeightFault>)
    requires
        weights_valid(candidates@),
        total_weight(candidates@) <= i64::MAX,
    ensures
        result is Ok <==> total_weight(candidates@) > 0,
        result matches Err(fault) ==> fault == (if candidates.len() == 0 {
            WeightFault::NoItem
        } else {
            WeightFault::AllZero
        }),
        result matches Ok(chosen) ==> candidates@.contains(chosen) && chosen.weight > 0,
{
    match candidates.choose_weighted(&mut rand::thread_rng(), |c| c.weight) {
        Ok(chosen) => Ok(*chosen),
        Err(WeightedError::NoItem) => Err(WeightFault::NoItem),
        Err(WeightedError::InvalidWeight) => Err(WeightFault::Invalid),
        Err(WeightedError::AllWeightsZero) => Err(WeightFault::AllZero),
        Err(WeightedError::TooMany) => Err(WeightFault::TooMany),
    }
}

/// Draws from an optional range: nothing where neither bound is set, the
/// one bound where only one is set, a random value between the bounds where
/// both are. A minimum above the maximum is refused.
pub fn draw(min: Option<i64>, max: Option<i64>) -> (result: Result<Option<i64>, EmptyRange>)
    ensures
        result is Err <==> range_is_empty(wide(min), wide(max)),
        result matches Ok(drawn) ==> draw_admits(wide(min), wide(max), wide(drawn)),
{
    match (min, max) {
        (None, None) => Ok(None),
        (None, Some(v)) => Ok(Some(v)),
        (Some(v), None) => Ok(Some(v)),
        (Some(lo), Some(hi)) => {
            if lo > hi {
                Err(EmptyRange)
            } else {
                Ok(Some(uniform(lo, hi)))
            }
        },
    }
}

/// `draw` for 32-bit bounds.
pub fn draw_i32(min: Option<i32>, max: Option<i32>) -> (result: Result<Option<i32>, EmptyRange>)
    ensures
        result is Err <==> range_is_empty(wide32(min), wide32(max)),
        result matches Ok(drawn) ==> draw_admits(wide32(min), wide32(max), wide32(drawn)),
{
    match (min, max) {
        (None, None) => Ok(None),
        (None, Some(v)) => Ok(Some(v)),
        (Some(v), None) => Ok(Some(v)),
        (Some(lo), Some(hi)) => {
            if lo > hi {
                Err(EmptyRange)
            } else {
                let value: i64 = uniform(lo as i64, hi as i64);
                Ok(Some(value as i32))
            }
        },
    }
}

/// Whether a chance, in hundredths, lies between 0 and 1.
pub open spec fn chance_valid(hundredths: int) -> bool {
    0 <= hundredths <= 100
}

/// Decides at random, true with the given chance in hundredths. `None` for a
/// chance outside 0 to 1.
pub fn flip(chance: i64) -> (result: Option<bool>)
    ensures
        result is Some <==> chance_valid(chance as int),
        chance == 0 ==> result == Some(false),
        chance == 100 ==> result == Some(true),
{
    if chance < 0 || chance > 100 {
        None
    } else {
        Some(bernoulli(chance as u32, 100))
    }
}

/// The sum of a list of weights.
pub open spec fn sum_of(weights: Seq<i64>) -> int
    decreases weights.len(),
{
    if weights.len() == 0 {
        0
    } else {
        sum_of(weights.drop_last()) + weights.last()
    }
}

/// Whether some weight is negative.
pub open spec fn has_negative(weights: Seq<i64>) -> bool {
    exists|k: int| 0 <= k < weights.len() && #[trigger] weights[k] < 0
}

/// The fault of a list of weights that admits no choice, if it is one: in
/// this order, an empty list, a negative weight, a sum out of range, a sum
/// of zero.
pub open spec fn weights_fault(weights: Seq<i64>) -> Option<WeightFault> {
    if weights.len() == 0 {
        Some(WeightFault::NoItem)
    } else if has_negative(weights) {
        Some(WeightFault::Invalid)
    } else if sum_of(weights) > i64::MAX {
        Some(WeightFault::TooMany)
    } else if sum_of(weights) == 0 {
        Some(WeightFault::AllZero)
    } else {
        None
    }
}

/// Among weights of which none is negative, a part of the list adds up to
/// no more than the whole.
pub proof fn lemma_sum_of_prefix(weights: Seq<i64>, n: int)
    requires
        !has_negative(weights),
        0 <= n <= weights.len(),
    ensures
        0 <= sum_of(weights.take(n)) <= sum_of(weights),
    decreases weights.len() - n,
{
    if n == weights.len() {
        assert(weights.take(n) =~= weights);
        lemma_sum_of_nonnegative(weights);
    } else {
        lemma_sum_of_prefix(weights, n + 1);
        assert(weights.take(n + 1).drop_last() =~= weights.take(n));
        assert(weights.take(n + 1).last() == weights[n]);
        assert(weights[n] >= 0);
        lemma_sum_of_nonnegative(weights.take(n));
    }
}

/// Weights of which none is negative add up to no less than zero.
pub proof fn lemma_sum_of_nonnegative(weights: Seq<i64>)
    requires
        !has_negative(weights),
    ensures
        sum_of(weights) >= 0,
    decreases weights.len(),
{
    if weights.len() > 0 {
        assert forall|k: int| 0 <= k < weights.drop_last().len() implies !(
        #[trigger] weights.drop_last()[k] < 0) by {
            assert(weights.drop_last()[k] == weights[k]);
        }
        lemma_sum_of_nonnegative(weights.drop_last());
        assert(!(weights[weights.len() - 1] < 0));
    }
}

/// Chooses a position in `weights` at random, each with a chance in
/// proportion to its weight.
///
/// A list that admits no choice is refused with its fault; otherwise the
/// position returned is one of a weight above zero.
pub fn choose_position(weights: &Vec<i64>) -> (result: Result<usize, WeightFault>)
    ensures
        match weights_fault(weights@) {
            Some(fault) => result == Err::<usize, WeightFault>(fault),
            None => result matches Ok(i) && i < weights.len() && weights[i as int] > 0,
        },
{
    if weights.len() == 0 {
        return Err(WeightFault::NoItem);
    }
    let mut k: usize = 0;
    while k < weights.len()
        invariant
            k <= weights.len(),
            forall|j: int| 0 <= j < k ==> weights[j] >= 0,
        decreases weights.len() - k,
    {
        if weights[k] < 0 {
            return Err(WeightFault::Invalid);
        }
        k += 1;
    }
    assert(!has_negative(weights@));
    let mut candidates: Vec<Candidate> = Vec::new();
    let mut total: i64 = 0;
    let mut i: usize = 0;
    while i < weights.len()
        invariant
            i <= weights.len(),
            !has_negative(weights@),
            candidates.len() == i,
            forall|j: int|
                0 <= j < i ==> candidates[j] == (Candidate {
                    position: j as usize,
                    weight: weights[j],
                }),
            total == total_weight(candidates@),
            total == sum_of(weights@.take(i as int)),
            0 <= total,
        decreases weights.len() - i,
    {
        let weight: i64 = weights[i];
        assert(!(weights@[i as int] < 0));
        proof {
            assert(weights@.take(i + 1).drop_last() =~= weights@.take(i as int));
            lemma_sum_of_prefix(weights@, i + 1);
        }
        if weight > i64::MAX - total {
            return Err(WeightFault::TooMany);
        }
        total = total + weight;
        let ghost before = candidates@;
        candidates.push(Candidate { position: i, weight });
        assert(candidates@.drop_last() =~= before);
        i += 1;
    }
    assert(weights@.take(i as int) =~= weights@);
    assert(weights_valid(candidates@));
    match choose_weighted(&candidates) {
        Ok(chosen) => {
            let ghost at = choose|at: int| 0 <= at < candidates.len() && candidates[at] == chosen;
            assert(chosen.position == at && chosen.weight == weights[at]);
            Ok(chosen.position)
        },
        Err(fault) => Err(fault),
    }
}

} // verus!
