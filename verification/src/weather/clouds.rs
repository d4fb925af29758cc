//! The clouds: the preset's name and the altitude of the base.

use crate::anchor::{
    anchor_by_line, anchor_pattern, find, first_match, group, located, pattern_compiles, rewritten,
    splice,
};
use crate::config::{number_drawn, number_view, Weather};
use crate::error::{outcome, ConfigError, ConfigFault, Failure, Field, PatchError, RepackError};
use crate::weather::{set_number, stage, surroundings_kept, Patched, Style};
use vstd::prelude::*;
use vstd::string::*;

verus! {

/// The name of a cloud preset, where a profile declares one, as characters.
pub open spec fn preset_text(cloud_preset: Option<String>) -> Option<Seq<char>> {
    match cloud_preset {
        Some(name) => Some(name@),
        None => None,
    }
}

/// A name between double quotes, as the document holds it.
pub open spec fn quoted(name: Seq<char>) -> Seq<char> {
    seq!['"'] + name + seq!['"']
}

/// The mission with the cloud preset of a profile written in. The anchor is
/// looked for first, then the profile's preset: a mission without the
/// anchor fails as such, but in a dry run, and a profile without a preset
/// fails under its name.
pub open spec fn cloud_preset_applied(
    mission: Seq<char>,
    profile: Seq<char>,
    cloud_preset: Option<Seq<char>>,
    dry_run: bool,
) -> Result<Seq<char>, Failure> {
    let pattern = anchor_pattern(Field::CloudPreset);
    let by_line = anchor_by_line(Field::CloudPreset);
    let found = first_match(pattern, by_line, mission);
    if !pattern_compiles(pattern, by_line) {
        Err(Failure::Patch(PatchError::BadAnchor))
    } else if !dry_run && !located(found) {
        Err(Failure::Patch(PatchError::AnchorNotFound { field: Field::CloudPreset }))
    } else {
        match cloud_preset {
            None => Err(Failure::Config(ConfigFault::CloudPresetMissing { profile })),
            Some(name) => Ok(
                if located(found) {
                    rewritten(found.unwrap(), quoted(name))
                } else {
                    mission
                },
            ),
        }
    }
}

/// Writes the profile's cloud preset into the mission.
pub fn modify_cloud_preset(
    mission: &str,
    preset_name: &str,
    weather: &Weather,
    dry_run: bool,
) -> (result: Result<String, RepackError>)
    ensures
        outcome(result) == cloud_preset_applied(
            mission@,
            preset_name@,
            preset_text(weather.cloud_preset),
            dry_run,
        ),
{
    let pattern = Field::CloudPreset.pattern();
    let found = match find(pattern.as_str(), Field::CloudPreset.by_line(), mission) {
        Ok(found) => found,
        Err(e) => {
            return Err(RepackError::Patch(e));
        },
    };
    let missing = match &found {
        Some(captured) => group(captured, 0).is_none(),
        None => true,
    };
    if !dry_run && missing {
        return Err(
            RepackError::Patch(PatchError::AnchorNotFound { field: Field::CloudPreset }),
        );
    }
    let cloud_preset = match &weather.cloud_preset {
        Some(name) => name,
        None => {
            return Err(
                RepackError::Config(
                    ConfigError::CloudPresetMissing { profile: preset_name.to_owned() },
                ),
            );
        },
    };
    let mut value = String::from_str("\"");
    value.append(cloud_preset.as_str());
    value.append("\"");
    proof {
        reveal_strlit("\"");
        assert(value@ =~= quoted(cloud_preset@));
    }
    match splice(mission, &found, Field::CloudPreset, value.as_str(), true) {
        Ok(out) => Ok(out),
        Err(e) => Err(RepackError::Patch(e)),
    }
}

/// Draws the altitude of the cloud base and writes it into the mission.
pub fn modify_cloud_base(mission: &str, weather: &Weather, dry_run: bool) -> (patched: Patched<i32>)
    ensures
        number_drawn(
            weather.cloud_base_min,
            weather.cloud_base_max,
            Field::CloudBase,
            patched.drawn,
        ),
        outcome(patched.mission) == stage(
            mission@,
            Field::CloudBase,
            number_view(patched.drawn),
            Style::Whole,
            dry_run,
        ),
        patched.mission matches Ok(out) ==> surroundings_kept(
            mission@,
            out@,
            Field::CloudBase,
            number_view(patched.drawn),
        ),
{
    let drawn = weather.random_cloud_base();
    let mission = set_number(mission, Field::CloudBase, &drawn, dry_run);
    Patched { drawn, mission }
}

} // verus!
