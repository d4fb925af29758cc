//! One preset applied to the mission: its time of day, then the weather of
//! a profile chosen among its candidates.

use crate::config::{same_but_flip, Draws, Preset, WeatherEntry};
use crate::error::{outcome, ConfigError, ConfigFault, Failure, RepackError};
use crate::random::chance_valid;
use crate::select::{candidates_of, select_weather, selection};
use crate::time::{modify_time, time_applied};
use crate::weather::clouds::preset_text;
use crate::weather::{modify_weather, weather_applied};
use vstd::prelude::*;

verus! {

/// What applying a preset gave: which weather profile was chosen, what was
/// drawn from it, and the mission that came of it.
#[derive(Debug)]
pub struct Generated {
    /// The position, among the profiles, of the one chosen. None for a
    /// preset that changes no weather, and where it did not come to a choice.
    pub chosen: Option<usize>,
    /// What was drawn from the chosen profile.
    pub draws: Option<Draws>,
    pub mission: Result<String, RepackError>,
}

/// Whether `after` is `before` with nothing changed but the wind flip of
/// the profile at `at`.
pub open spec fn same_but_flip_at(before: Seq<WeatherEntry>, after: Seq<WeatherEntry>, at: int) -> bool {
    &&& after.len() == before.len()
    &&& forall|k: int| 0 <= k < before.len() && k != at ==> after[k] == before[k]
    &&& after[at].name == before[at].name
    &&& same_but_flip(before[at].weather, after[at].weather)
}

/// What applying the chosen profile at `at` to the mission `timed` gives.
/// A flip chance outside 0 to 1 fails and leaves all as it was. Else the
/// profile's flip is set for this use, the chance 0 or 1 deciding it with the
/// preset's `flip_wind`, its fields are drawn, and the mission is what the
/// draws make of `timed`.
pub open spec fn weather_generated(
    timed: Seq<char>,
    flip_wind: bool,
    before: Seq<WeatherEntry>,
    after: Seq<WeatherEntry>,
    at: int,
    dry_run: bool,
    generated: Generated,
) -> bool {
    let chance = before[at].weather.wind_flip_chance.value();
    if !chance_valid(chance) {
        &&& after == before
        &&& generated.draws is None
        &&& outcome(generated.mission) == Err::<Seq<char>, Failure>(
            Failure::Config(ConfigFault::FlipChance),
        )
    } else {
        &&& same_but_flip_at(before, after, at)
        &&& chance == 0 ==> after[at].weather.is_wind_flipped == flip_wind
        &&& chance == 100 ==> after[at].weather.is_wind_flipped == !flip_wind
        &&& generated.draws matches Some(draws)
        &&& after[at].weather.admits(draws)
        &&& outcome(generated.mission) == weather_applied(
            timed,
            after[at].name@,
            preset_text(after[at].weather.cloud_preset),
            draws,
            dry_run,
        )
    }
}

/// What applying a preset to a mission gives. The time comes first; a time
/// that fails ends it. A preset without candidates is done with the time.
/// Else a profile is chosen; a choice that fails ends it. The chosen profile
/// is then applied to the mission with the time set.
pub open spec fn preset_generated(
    mission: Seq<char>,
    preset: Preset,
    before: Seq<WeatherEntry>,
    after: Seq<WeatherEntry>,
    dry_run: bool,
    generated: Generated,
) -> bool {
    match time_applied(mission, preset.time@, dry_run) {
        Err(failure) => {
            &&& after == before
            &&& generated.chosen is None
            &&& generated.draws is None
            &&& outcome(generated.mission) == Err::<Seq<char>, Failure>(failure)
        },
        Ok(timed) => match generated.chosen {
            None => {
                &&& after == before
                &&& generated.draws is None
                &&& match generated.mission {
                    Ok(out) => out@ == timed && selection(
                        before,
                        candidates_of(preset),
                        Ok::<Option<usize>, ConfigError>(None),
                    ),
                    Err(RepackError::Config(e)) => selection(
                        before,
                        candidates_of(preset),
                        Err::<Option<usize>, ConfigError>(e),
                    ),
                    Err(_) => false,
                }
            },
            Some(at) => {
                &&& selection(before, candidates_of(preset), Ok::<Option<usize>, ConfigError>(Some(at)))
                &&& at < before.len()
                &&& weather_generated(timed, preset.flip_wind, before, after, at as int, dry_run, generated)
            },
        },
    }
}

/// Applies a preset to the mission: sets the start time, chooses one of
/// the preset's weather profiles, settles its wind flip and applies it.
///
/// Of the profiles only the wind flip of the chosen one changes.
pub fn generate(
    mission: &str,
    preset: &Preset,
    profiles: &mut Vec<WeatherEntry>,
    dry_run: bool,
) -> (generated: Generated)
    ensures
        preset_generated(mission@, *preset, old(profiles)@, final(profiles)@, dry_run, generated),
{
    let timed = match modify_time(mission, preset, dry_run) {
        Ok(timed) => timed,
        Err(e) => {
            return Generated { chosen: None, draws: None, mission: Err(e) };
        },
    };
    let at = match select_weather(profiles, preset) {
        Ok(Some(at)) => at,
        Ok(None) => {
            return Generated { chosen: None, draws: None, mission: Ok(timed) };
        },
        Err(e) => {
            return Generated { chosen: None, draws: None, mission: Err(RepackError::Config(e)) };
        },
    };
    match profiles[at].weather.settle_wind_flip(preset.flip_wind) {
        Ok(()) => {},
        Err(e) => {
            assert(profiles@ =~= old(profiles)@);
            return Generated { chosen: Some(at), draws: None, mission: Err(RepackError::Config(e)) };
        },
    }
    let patched = modify_weather(timed, profiles[at].name.as_str(), &profiles[at].weather, dry_run);
    Generated { chosen: Some(at), draws: Some(patched.draws), mission: patched.mission }
}

} // verus!
