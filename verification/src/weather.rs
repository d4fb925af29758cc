//! Applying a weather profile to the mission document, field by field.

use crate::anchor::{
    anchor_by_line, anchor_pattern, field_patched, first_match, kept_around, patch_field,
};
use crate::config::{number_view, quantity_view, Draws, Weather};
use crate::decimal::{fixed_text, short_text, Decimal};
use crate::error::{lifted, outcome, ConfigError, ConfigFault, Failure, Field, RepackError};
use crate::text::{int_text, render_int};
use crate::weather::clouds::{cloud_preset_applied, modify_cloud_preset, preset_text};
use vstd::prelude::*;

pub mod clouds;
pub mod misc;
pub mod wind;

verus! {

/// How a number is written into the document.
#[derive(Clone, Copy, Debug, PartialEq, Eq, Structural)]
pub enum Style {
    /// As the whole number that it is.
    Whole,
    /// As a quantity of that many hundredths, with two fractional digits.
    Fixed,
    /// As a quantity of that many hundredths, with as few fractional digits
    /// as it needs.
    Short,
}

/// The text of a number in a style.
pub open spec fn rendered(style: Style, value: int) -> Seq<char> {
    match style {
        Style::Whole => int_text(value),
        Style::Fixed => fixed_text(value),
        Style::Short => short_text(value),
    }
}

/// What one operation makes of the mission, given what was drawn for its
/// field: the failure of the draw; the mission as it is where nothing was
/// drawn; else the mission with the value patched in.
pub open spec fn stage(
    mission: Seq<char>,
    field: Field,
    drawn: Result<Option<int>, ConfigFault>,
    style: Style,
    dry_run: bool,
) -> Result<Seq<char>, Failure> {
    match drawn {
        Err(e) => Err(Failure::Config(e)),
        Ok(None) => Ok(mission),
        Ok(Some(value)) => lifted(field_patched(mission, field, rendered(style, value), dry_run)),
    }
}

/// Whether an operation left the text around its field alone: where a
/// value was drawn, `out` has around the field's anchor what `mission` has
/// around it; where none was drawn, `out` is `mission`.
pub open spec fn surroundings_kept(
    mission: Seq<char>,
    out: Seq<char>,
    field: Field,
    drawn: Result<Option<int>, ConfigFault>,
) -> bool {
    match drawn {
        Ok(Some(_)) => kept_around(
            mission,
            out,
            first_match(anchor_pattern(field), anchor_by_line(field), mission),
        ),
        _ => out == mission,
    }
}

/// An operation that follows another: the failure of the one before, or
/// the operation on what the one before returned.
pub open spec fn stage_after(
    previous: Result<Seq<char>, Failure>,
    field: Field,
    drawn: Result<Option<int>, ConfigFault>,
    style: Style,
    dry_run: bool,
) -> Result<Seq<char>, Failure> {
    match previous {
        Ok(mission) => stage(mission, field, drawn, style, dry_run),
        Err(e) => Err(e),
    }
}

/// One operation on the mission: what was drawn for its field, and the
/// mission that came of it.
#[derive(Debug)]
pub struct Patched<T> {
    pub drawn: Result<Option<T>, ConfigError>,
    pub mission: Result<String, RepackError>,
}

/// The operation on the wind of one altitude band: what was drawn for speed
/// and heading, and the mission that came of both.
#[derive(Debug)]
pub struct WindPatched {
    pub speed: Result<Option<Decimal>, ConfigError>,
    pub heading: Result<Option<i32>, ConfigError>,
    pub mission: Result<String, RepackError>,
}

/// The application of a weather profile: what was drawn for each field, and
/// the mission that came of it all.
#[derive(Debug)]
pub struct WeatherPatched {
    pub draws: Draws,
    pub mission: Result<String, RepackError>,
}

/// Writes a drawn whole number into its field.
pub fn set_number(
    mission: &str,
    field: Field,
    drawn: &Result<Option<i32>, ConfigError>,
    dry_run: bool,
) -> (result: Result<String, RepackError>)
    ensures
        outcome(result) == stage(mission@, field, number_view(*drawn), Style::Whole, dry_run),
        result matches Ok(out) ==> surroundings_kept(mission@, out@, field, number_view(*drawn)),
{
    match drawn {
        Err(e) => Err(RepackError::Config(e.clone())),
        Ok(None) => Ok(mission.to_owned()),
        Ok(Some(value)) => {
            let text = render_int(*value as i64);
            match patch_field(mission, field, text.as_str(), dry_run) {
                Ok(out) => Ok(out),
                Err(e) => Err(RepackError::Patch(e)),
            }
        },
    }
}

/// Writes a drawn quantity into its field, in the given style.
pub fn set_quantity(
    mission: &str,
    field: Field,
    drawn: &Result<Option<Decimal>, ConfigError>,
    style: Style,
    dry_run: bool,
) -> (result: Result<String, RepackError>)
    ensures
        outcome(result) == stage(mission@, field, quantity_view(*drawn), style, dry_run),
        result matches Ok(out) ==> surroundings_kept(mission@, out@, field, quantity_view(*drawn)),
{
    match drawn {
        Err(e) => Err(RepackError::Config(e.clone())),
        Ok(None) => Ok(mission.to_owned()),
        Ok(Some(value)) => {
            let text = match style {
                Style::Whole => render_int(value.hundredths),
                Style::Fixed => value.render_fixed(),
                Style::Short => value.render_short(),
            };
            match patch_field(mission, field, text.as_str(), dry_run) {
                Ok(out) => Ok(out),
                Err(e) => Err(RepackError::Patch(e)),
            }
        },
    }
}

/// Writes a drawn whole number into its field, unless the operation before
/// failed.
pub fn set_number_after(
    previous: Result<String, RepackError>,
    field: Field,
    drawn: &Result<Option<i32>, ConfigError>,
    dry_run: bool,
) -> (result: Result<String, RepackError>)
    ensures
        outcome(result) == stage_after(
            outcome(previous),
            field,
            number_view(*drawn),
            Style::Whole,
            dry_run,
        ),
{
    match previous {
        Ok(mission) => set_number(mission.as_str(), field, drawn, dry_run),
        Err(e) => Err(e),
    }
}

/// Writes a drawn quantity into its field, unless the operation before
/// failed.
pub fn set_quantity_after(
    previous: Result<String, RepackError>,
    field: Field,
    drawn: &Result<Option<Decimal>, ConfigError>,
    style: Style,
    dry_run: bool,
) -> (result: Result<String, RepackError>)
    ensures
        outcome(result) == stage_after(outcome(previous), field, quantity_view(*drawn), style, dry_run),
{
    match previous {
        Ok(mission) => set_quantity(mission.as_str(), field, drawn, style, dry_run),
        Err(e) => Err(e),
    }
}

/// The mission with a weather profile applied, given what was drawn for
/// each field: the cloud preset, the cloud base, the wind at ground, at
/// 2000 m and at 8000 m, each as speed and then heading, the temperature and
/// the pressure, in this order. The first failure ends it.
pub open spec fn weather_applied(
    mission: Seq<char>,
    profile: Seq<char>,
    cloud_preset: Option<Seq<char>>,
    draws: Draws,
    dry_run: bool,
) -> Result<Seq<char>, Failure> {
    let clouds = cloud_preset_applied(mission, profile, cloud_preset, dry_run);
    let base = stage_after(clouds, Field::CloudBase, number_view(draws.cloud_base), Style::Whole, dry_run);
    let ground_speed = stage_after(
        base,
        Field::GroundWindSpeed,
        quantity_view(draws.wind_ground_speed),
        Style::Short,
        dry_run,
    );
    let ground = stage_after(
        ground_speed,
        Field::GroundWindHeading,
        number_view(draws.wind_ground_heading),
        Style::Whole,
        dry_run,
    );
    let middle_speed = stage_after(
        ground,
        Field::Wind2000Speed,
        quantity_view(draws.wind_2000m_speed),
        Style::Short,
        dry_run,
    );
    let middle = stage_after(
        middle_speed,
        Field::Wind2000Heading,
        number_view(draws.wind_2000m_heading),
        Style::Whole,
        dry_run,
    );
    let high_speed = stage_after(
        middle,
        Field::Wind8000Speed,
        quantity_view(draws.wind_8000m_speed),
        Style::Short,
        dry_run,
    );
    let high = stage_after(
        high_speed,
        Field::Wind8000Heading,
        number_view(draws.wind_8000m_heading),
        Style::Whole,
        dry_run,
    );
    let temperature = stage_after(
        high,
        Field::Temperature,
        quantity_view(draws.temperature),
        Style::Fixed,
        dry_run,
    );
    stage_after(temperature, Field::Qnh, quantity_view(draws.qnh), Style::Fixed, dry_run)
}

/// Applies a weather profile to the mission with the values drawn.
pub fn apply_weather(
    mission: &str,
    preset_name: &str,
    weather: &Weather,
    draws: &Draws,
    dry_run: bool,
) -> (result: Result<String, RepackError>)
    ensures
        outcome(result) == weather_applied(
            mission@,
            preset_name@,
            preset_text(weather.cloud_preset),
            *draws,
            dry_run,
        ),
{
    let mission = modify_cloud_preset(mission, preset_name, weather, dry_run);
    let mission = set_number_after(mission, Field::CloudBase, &draws.cloud_base, dry_run);
    let mission = set_quantity_after(
        mission,
        Field::GroundWindSpeed,
        &draws.wind_ground_speed,
        Style::Short,
        dry_run,
    );
    let mission = set_number_after(
        mission,
        Field::GroundWindHeading,
        &draws.wind_ground_heading,
        dry_run,
    );
    let mission = set_quantity_after(
        mission,
        Field::Wind2000Speed,
        &draws.wind_2000m_speed,
        Style::Short,
        dry_run,
    );
    let mission = set_number_after(mission, Field::Wind2000Heading, &draws.wind_2000m_heading, dry_run);
    let mission = set_quantity_after(
        mission,
        Field::Wind8000Speed,
        &draws.wind_8000m_speed,
        Style::Short,
        dry_run,
    );
    let mission = set_number_after(mission, Field::Wind8000Heading, &draws.wind_8000m_heading, dry_run);
    let mission = set_quantity_after(
        mission,
        Field::Temperature,
        &draws.temperature,
        Style::Fixed,
        dry_run,
    );
    set_quantity_after(mission, Field::Qnh, &draws.qnh, Style::Fixed, dry_run)
}

/// Applies a weather profile to the mission: draws each field that the
/// profile sets and writes it into the document.
///
/// `weather.is_wind_flipped` must be set as this use of the profile wants
/// it: the headings drawn are turned by it.
pub fn modify_weather(
    mission: String,
    preset_name: &str,
    weather: &Weather,
    dry_run: bool,
) -> (patched: WeatherPatched)
    ensures
        weather.admits(patched.draws),
        outcome(patched.mission) == weather_applied(
            mission@,
            preset_name@,
            preset_text(weather.cloud_preset),
            patched.draws,
            dry_run,
        ),
{
    let draws = weather.draw_all();
    let mission = apply_weather(mission.as_str(), preset_name, weather, &draws, dry_run);
    WeatherPatched { draws, mission }
}

} // verus!
