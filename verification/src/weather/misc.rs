//! The temperature and the pressure.

use crate::config::{quantity_drawn, quantity_view, Weather};
use crate::decimal::Decimal;
use crate::error::{outcome, Field};
use crate::weather::{set_quantity, stage, surroundings_kept, Patched, Style};
use vstd::prelude::*;

verus! {

/// Draws the temperature and writes it into the mission, with two
/// fractional digits.
pub fn modify_temp(mission: &str, weather: &Weather, dry_run: bool) -> (patched: Patched<Decimal>)
    ensures
        quantity_drawn(weather.temp_min, weather.temp_max, Field::Temperature, patched.drawn),
        outcome(patched.mission) == stage(
            mission@,
            Field::Temperature,
            quantity_view(patched.drawn),
            Style::Fixed,
            dry_run,
        ),
        patched.mission matches Ok(out) ==> surroundings_kept(
            mission@,
            out@,
            Field::Temperature,
            quantity_view(patched.drawn),
        ),
{
    let drawn = weather.random_temp();
    let mission = set_quantity(mission, Field::Temperature, &drawn, Style::Fixed, dry_run);
    Patched { drawn, mission }
}

/// Draws the pressure at sea level and writes it into the mission, with two
/// fractional digits.
pub fn modify_qnh(mission: &str, weather: &Weather, dry_run: bool) -> (patched: Patched<Decimal>)
    ensures
        quantity_drawn(weather.qnh_min, weather.qnh_max, Field::Qnh, patched.drawn),
        outcome(patched.mission) == stage(
            mission@,
            Field::Qnh,
            quantity_view(patched.drawn),
            Style::Fixed,
            dry_run,
        ),
        patched.mission matches Ok(out) ==> surroundings_kept(
            mission@,
            out@,
            Field::Qnh,
            quantity_view(patched.drawn),
        ),
{
    let drawn = weather.random_qnh();
    let mission = set_quantity(mission, Field::Qnh, &drawn, Style::Fixed, dry_run);
    Patched { drawn, mission }
}

} // verus!
