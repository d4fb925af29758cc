//! The choice of a weather profile for a preset, among the profiles that
//! the preset names, by their weights.

use crate::config::{distinct, names_of, Preset, WeatherEntry};
use crate::error::{ConfigError, ConfigFault};
use crate::random::{choose_position, weights_fault};
use vstd::prelude::*;

verus! {

/// The first position of `name` in `names`, if it occurs there.
pub open spec fn position(names: Seq<Seq<char>>, name: Seq<char>) -> Option<int>
    decreases names.len(),
{
    if names.len() == 0 {
        None
    } else {
        match position(names.drop_last(), name) {
            Some(i) => Some(i),
            None => if names.last() == name {
                Some(names.len() - 1)
            } else {
                None
            },
        }
    }
}

/// A name found in a part of the list that opens it is found there in the
/// whole list.
pub proof fn lemma_position_found(names: Seq<Seq<char>>, name: Seq<char>, n: int)
    requires
        0 <= n <= names.len(),
        position(names.take(n), name) is Some,
    ensures
        position(names, name) == position(names.take(n), name),
    decreases names.len() - n,
{
    if n == names.len() {
        assert(names.take(n) =~= names);
    } else {
        assert(names.take(n + 1).drop_last() =~= names.take(n));
        lemma_position_found(names, name, n + 1);
    }
}

/// A position found is one of the list, and the name stands there.
pub proof fn lemma_position_holds(names: Seq<Seq<char>>, name: Seq<char>)
    ensures
        position(names, name) matches Some(i) ==> 0 <= i < names.len() && names[i] == name,
    decreases names.len(),
{
    if names.len() > 0 {
        lemma_position_holds(names.drop_last(), name);
    }
}

/// The first of the names of `list` that `names` lacks, by its position in
/// `list`.
pub open spec fn first_missing(names: Seq<Seq<char>>, list: Seq<Seq<char>>) -> Option<int>
    decreases list.len(),
{
    if list.len() == 0 {
        None
    } else {
        match first_missing(names, list.drop_last()) {
            Some(k) => Some(k),
            None => if position(names, list.last()) is None {
                Some(list.len() - 1)
            } else {
                None
            },
        }
    }
}

/// A name missed in a part of the list that opens it is the first that the
/// whole list misses.
pub proof fn lemma_first_missing_found(names: Seq<Seq<char>>, list: Seq<Seq<char>>, n: int)
    requires
        0 <= n <= list.len(),
        first_missing(names, list.take(n)) is Some,
    ensures
        first_missing(names, list) == first_missing(names, list.take(n)),
    decreases list.len() - n,
{
    if n == list.len() {
        assert(list.take(n) =~= list);
    } else {
        assert(list.take(n + 1).drop_last() =~= list.take(n));
        lemma_first_missing_found(names, list, n + 1);
    }
}

/// The weight of each candidate of `list`: that of the first profile of its
/// name.
pub open spec fn candidate_weights(profiles: Seq<WeatherEntry>, list: Seq<Seq<char>>) -> Seq<i64> {
    list.map_values(
        |name: Seq<char>|
            match position(names_of(profiles), name) {
                Some(i) => profiles[i].weather.weight.hundredths,
                None => 0i64,
            },
    )
}

/// What the choice of a weather profile for a preset may return. A preset
/// without a list of candidates gets none. A candidate that the profiles
/// lack fails under its name, the first such of the list. Weights that admit
/// no choice fail with their fault. Else the position of a profile is
/// returned that the list names and whose weight is above zero.
pub open spec fn selection(
    profiles: Seq<WeatherEntry>,
    candidates: Option<Seq<Seq<char>>>,
    result: Result<Option<usize>, ConfigError>,
) -> bool {
    match candidates {
        None => result matches Ok(None),
        Some(list) => match first_missing(names_of(profiles), list) {
            Some(k) => result matches Err(e) && e@ == (ConfigFault::WeatherNotFound { name: list[k] }),
            None => match weights_fault(candidate_weights(profiles, list)) {
                Some(fault) => result matches Err(e) && e@ == (ConfigFault::Weights { fault }),
                None => {
                    &&& result matches Ok(Some(i))
                    &&& i < profiles.len()
                    &&& profiles[i as int].weather.weight.hundredths > 0
                    &&& exists|k: int|
                        0 <= k < list.len() && #[trigger] position(names_of(profiles), list[k])
                            == Some(i as int)
                },
            },
        },
    }
}

/// The candidates of a preset, as sequences of characters.
pub open spec fn candidates_of(preset: Preset) -> Option<Seq<Seq<char>>> {
    match preset.weather {
        Some(list) => Some(list@.map_values(|name: String| name@)),
        None => None,
    }
}

/// Finds the weather profile of the given name.
pub fn find_weather(profiles: &Vec<WeatherEntry>, name: &String) -> (found: Option<usize>)
    ensures
        match found {
            Some(i) => position(names_of(profiles@), name@) == Some(i as int) && i < profiles.len(),
            None => position(names_of(profiles@), name@) is None,
        },
{
    let ghost names = names_of(profiles@);
    let mut at: usize = 0;
    assert(names.take(0) =~= Seq::<Seq<char>>::empty());
    while at < profiles.len()
        invariant
            at <= profiles.len(),
            names == names_of(profiles@),
            position(names.take(at as int), name@) is None,
        decreases profiles.len() - at,
    {
        proof {
            assert(names.take(at + 1).drop_last() =~= names.take(at as int));
            assert(names.take(at + 1).last() == profiles[at as int].name@);
        }
        if profiles[at].name == *name {
            proof {
                lemma_position_found(names, name@, at + 1);
            }
            return Some(at);
        }
        at += 1;
    }
    assert(names.take(at as int) =~= names);
    None
}

/// Chooses the weather profile for a preset at random among its
/// candidates, each with a chance in proportion to its weight.
#[verifier::loop_isolation(false)]
pub fn select_weather(
    profiles: &Vec<WeatherEntry>,
    preset: &Preset,
) -> (result: Result<Option<usize>, ConfigError>)
    ensures
        selection(profiles@, candidates_of(*preset), result),
{
    let list = match &preset.weather {
        Some(list) => list,
        None => {
            return Ok(None);
        },
    };
    let ghost names = names_of(profiles@);
    let ghost wanted = candidates_of(*preset).unwrap();
    let mut places: Vec<usize> = Vec::new();
    let mut weights: Vec<i64> = Vec::new();
    let mut at: usize = 0;
    assert(wanted.take(0) =~= Seq::<Seq<char>>::empty());
    assert(candidate_weights(profiles@, wanted.take(0)) =~= weights@);
    while at < list.len()
        invariant
            at <= list.len(),
            names == names_of(profiles@),
            wanted == list@.map_values(|name: String| name@),
            first_missing(names, wanted.take(at as int)) is None,
            places.len() == at,
            weights.len() == at,
            forall|k: int| 0 <= k < at ==> position(names, #[trigger] wanted[k]) == Some(places[k] as int),
            forall|k: int| 0 <= k < at ==> (#[trigger] places[k]) < profiles.len(),
            weights@ == candidate_weights(profiles@, wanted.take(at as int)),
        decreases list.len() - at,
    {
        proof {
            assert(wanted.take(at + 1).drop_last() =~= wanted.take(at as int));
            assert(wanted.take(at + 1).last() == list[at as int]@);
        }
        match find_weather(profiles, &list[at]) {
            None => {
                proof {
                    lemma_first_missing_found(names, wanted, at + 1);
                }
                return Err(ConfigError::WeatherNotFound { name: list[at].clone() });
            },
            Some(place) => {
                places.push(place);
                weights.push(profiles[place].weather.weight.hundredths);
                proof {
                    assert(weights@ =~= candidate_weights(profiles@, wanted.take(at + 1)));
                }
            },
        }
        at += 1;
    }
    proof {
        assert(wanted.take(at as int) =~= wanted);
    }
    match choose_position(&weights) {
        Ok(k) => {
            assert(position(names, wanted[k as int]) == Some(places[k as int] as int));
            Ok(Some(places[k]))
        },
        Err(fault) => Err(ConfigError::Weights { fault }),
    }
}

/// Among names of which none occurs twice, each is found where it stands.
pub proof fn lemma_position_of_distinct(names: Seq<Seq<char>>, at: int)
    requires
        distinct(names),
        0 <= at < names.len(),
    ensures
        position(names, names[at]) == Some(at),
    decreases names.len(),
{
    let shorter = names.drop_last();
    if at == names.len() - 1 {
        lemma_position_holds(shorter, names[at]);
    } else {
        assert(shorter[at] == names[at]);
        lemma_position_of_distinct(shorter, at);
    }
}

} // verus!
