//! The wind at each of three altitude bands: speed, then heading.

use crate::config::{heading_drawn, number_view, quantity_drawn, quantity_view, speed_drawn, Weather};
use crate::decimal::Decimal;
use crate::error::{outcome, ConfigError, ConfigFault, Failure, Field, RepackError};
use crate::weather::{set_number_after, set_quantity, stage, stage_after, Style, WindPatched};
use vstd::prelude::*;

verus! {

/// The mission with the wind of one band written in: the speed, then the
/// heading into what the speed left.
pub open spec fn wind_applied(
    mission: Seq<char>,
    speed_field: Field,
    heading_field: Field,
    speed: Result<Option<int>, ConfigFault>,
    heading: Result<Option<int>, ConfigFault>,
    dry_run: bool,
) -> Result<Seq<char>, Failure> {
    stage_after(
        stage(mission, speed_field, speed, Style::Short, dry_run),
        heading_field,
        heading,
        Style::Whole,
        dry_run,
    )
}

/// Writes the wind of one band into the mission.
pub fn set_wind(
    mission: &str,
    speed_field: Field,
    heading_field: Field,
    speed: &Result<Option<Decimal>, ConfigError>,
    heading: &Result<Option<i32>, ConfigError>,
    dry_run: bool,
) -> (result: Result<String, RepackError>)
    ensures
        outcome(result) == wind_applied(
            mission@,
            speed_field,
            heading_field,
            quantity_view(*speed),
            number_view(*heading),
            dry_run,
        ),
{
    let mission = set_quantity(mission, speed_field, speed, Style::Short, dry_run);
    set_number_after(mission, heading_field, heading, dry_run)
}

/// The speed that a band passes on to the band above: the speed drawn,
/// once it is written, else the speed that stood before.
pub open spec fn speed_passed_on(
    mission: Seq<char>,
    speed_field: Field,
    speed: Result<Option<Decimal>, ConfigError>,
    dry_run: bool,
    before: Decimal,
) -> Decimal {
    match speed {
        Ok(Some(drawn)) => if stage(mission, speed_field, quantity_view(speed), Style::Short, dry_run)
            is Ok {
            drawn
        } else {
            before
        },
        _ => before,
    }
}

/// Writes the wind of one band into the mission, and passes the speed on
/// once it is written.
fn write_wind(
    mission: &str,
    speed_field: Field,
    heading_field: Field,
    speed: Result<Option<Decimal>, ConfigError>,
    heading: Result<Option<i32>, ConfigError>,
    passed_on: &mut Decimal,
    dry_run: bool,
) -> (patched: WindPatched)
    ensures
        patched.speed == speed,
        patched.heading == heading,
        outcome(patched.mission) == wind_applied(
            mission@,
            speed_field,
            heading_field,
            quantity_view(speed),
            number_view(heading),
            dry_run,
        ),
        *final(passed_on) == speed_passed_on(mission@, speed_field, speed, dry_run, *old(passed_on)),
{
    let with_speed = set_quantity(mission, speed_field, &speed, Style::Short, dry_run);
    match (&speed, &with_speed) {
        (Ok(Some(drawn)), Ok(_)) => {
            *passed_on = *drawn;
        },
        _ => {},
    }
    let mission = set_number_after(with_speed, heading_field, &heading, dry_run);
    WindPatched { speed, heading, mission }
}

/// Draws the wind at ground and writes it into the mission. The speed
/// drawn is passed on in `wind_ground_speed`, once it is written.
pub fn modify_ground_wind(
    mission: &str,
    weather: &Weather,
    wind_ground_speed: &mut Decimal,
    dry_run: bool,
) -> (patched: WindPatched)
    ensures
        quantity_drawn(
            weather.wind_ground_speed_min,
            weather.wind_ground_speed_max,
            Field::GroundWindSpeed,
            patched.speed,
        ),
        heading_drawn(
            weather.wind_ground_heading_min,
            weather.wind_ground_heading_max,
            weather.is_wind_flipped,
            Field::GroundWindHeading,
            patched.heading,
        ),
        outcome(patched.mission) == wind_applied(
            mission@,
            Field::GroundWindSpeed,
            Field::GroundWindHeading,
            quantity_view(patched.speed),
            number_view(patched.heading),
            dry_run,
        ),
        *final(wind_ground_speed) == speed_passed_on(
            mission@,
            Field::GroundWindSpeed,
            patched.speed,
            dry_run,
            *old(wind_ground_speed),
        ),
{
    let speed = weather.random_wind_speed_ground();
    let heading = weather.random_wind_heading_ground();
    write_wind(
        mission,
        Field::GroundWindSpeed,
        Field::GroundWindHeading,
        speed,
        heading,
        wind_ground_speed,
        dry_run,
    )
}

/// Draws the wind at 2000 m, its speed as an increase over `ground_speed`,
/// and writes it into the mission. The speed drawn is passed on in
/// `wind_2000m_speed`, once it is written.
pub fn modify_2000m_wind(
    mission: &str,
    weather: &Weather,
    ground_speed: Decimal,
    wind_2000m_speed: &mut Decimal,
    dry_run: bool,
) -> (patched: WindPatched)
    ensures
        speed_drawn(
            weather.wind_2000m_increase_speed_min,
            weather.wind_2000m_increase_speed_max,
            ground_speed,
            Field::Wind2000Speed,
            patched.speed,
        ),
        heading_drawn(
            weather.wind_2000m_heading_min,
            weather.wind_2000m_heading_max,
            weather.is_wind_flipped,
            Field::Wind2000Heading,
            patched.heading,
        ),
        outcome(patched.mission) == wind_applied(
            mission@,
            Field::Wind2000Speed,
            Field::Wind2000Heading,
            quantity_view(patched.speed),
            number_view(patched.heading),
            dry_run,
        ),
        *final(wind_2000m_speed) == speed_passed_on(
            mission@,
            Field::Wind2000Speed,
            patched.speed,
            dry_run,
            *old(wind_2000m_speed),
        ),
{
    let speed = weather.random_wind_speed_2000m(ground_speed);
    let heading = weather.random_wind_heading_2000m();
    write_wind(
        mission,
        Field::Wind2000Speed,
        Field::Wind2000Heading,
        speed,
        heading,
        wind_2000m_speed,
        dry_run,
    )
}

/// Draws the wind at 8000 m, its speed as an increase over
/// `wind_2000m_speed`, and writes it into the mission.
pub fn modify_8000m_wind(
    mission: &str,
    weather: &Weather,
    wind_2000m_speed: Decimal,
    dry_run: bool,
) -> (patched: WindPatched)
    ensures
        speed_drawn(
            weather.wind_8000m_increase_speed_min,
            weather.wind_8000m_increase_speed_max,
            wind_2000m_speed,
            Field::Wind8000Speed,
            patched.speed,
        ),
        heading_drawn(
            weather.wind_8000m_heading_min,
            weather.wind_8000m_heading_max,
            weather.is_wind_flipped,
            Field::Wind8000Heading,
            patched.heading,
        ),
        outcome(patched.mission) == wind_applied(
            mission@,
            Field::Wind8000Speed,
            Field::Wind8000Heading,
            quantity_view(patched.speed),
            number_view(patched.heading),
            dry_run,
        ),
{
    let speed = weather.random_wind_speed_8000m(wind_2000m_speed);
    let heading = weather.random_wind_heading_8000m();
    let mission = set_wind(
        mission,
        Field::Wind8000Speed,
        Field::Wind8000Heading,
        &speed,
        &heading,
        dry_run,
    );
    WindPatched { speed, heading, mission }
}

} // verus!
