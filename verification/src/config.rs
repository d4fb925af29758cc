//! The configuration: presets, weather profiles and the draws from a profile.

use crate::decimal::Decimal;
use crate::error::{ConfigError, ConfigFault, Field};
use crate::flip_heading;
use crate::flipped_heading;
use crate::random::{chance_valid, draw, draw_admits, draw_i32, flip, range_is_empty, wide32};
use vstd::prelude::*;

verus! {

/// The whole configuration: the presets and the weather profiles, each
/// under its name. It is well formed, `wf`, where no two presets share a name
/// and no two weather profiles do; `Config::new` makes only such.
#[derive(Debug)]
pub struct Config {
    pub misc: MiscOptions,
    /// The presets, each under its name.
    pub preset: Vec<PresetEntry>,
    /// The weather profiles, each under its name.
    pub weather: Vec<WeatherEntry>,
}

/// A preset under its name.
#[derive(Debug)]
pub struct PresetEntry {
    pub name: String,
    pub preset: Preset,
}

/// A weather profile under its name.
#[derive(Debug)]
pub struct WeatherEntry {
    pub name: String,
    pub weather: Weather,
}

/// Options that apply to every preset.
#[derive(Debug)]
pub struct MiscOptions {
    pub remove_required_modules: bool,
}

/// A time of day together with the weather profiles to choose from.
#[derive(Debug)]
pub struct Preset {
    /// The names of the candidate weather profiles, if the weather is to be
    /// changed at all.
    pub weather: Option<Vec<String>>,
    /// The start time, as `H`, `H:M` or `H:M:S`.
    pub time: String,
    /// Whether the wind flip of the chosen profile is inverted.
    pub flip_wind: bool,
}

/// A weather profile: the ranges to draw each field of the weather from.
/// A range with neither bound leaves its field alone; one with a single
/// bound fixes the field to it.
#[derive(Debug)]
pub struct Weather {
    pub cloud_preset: Option<String>,
    pub cloud_base_min: Option<i32>,
    pub cloud_base_max: Option<i32>,
    pub wind_ground_speed_min: Option<Decimal>,
    pub wind_ground_speed_max: Option<Decimal>,
    pub wind_ground_heading_min: Option<i32>,
    pub wind_ground_heading_max: Option<i32>,
    /// At 2000 m the speed is given as an increase over the speed at ground.
    pub wind_2000m_increase_speed_min: Option<Decimal>,
    pub wind_2000m_increase_speed_max: Option<Decimal>,
    pub wind_2000m_heading_min: Option<i32>,
    pub wind_2000m_heading_max: Option<i32>,
    /// At 8000 m the speed is given as an increase over the speed at 2000 m.
    pub wind_8000m_increase_speed_min: Option<Decimal>,
    pub wind_8000m_increase_speed_max: Option<Decimal>,
    pub wind_8000m_heading_min: Option<i32>,
    pub wind_8000m_heading_max: Option<i32>,
    /// The chance, from 0 to 1, that every wind heading is turned around.
    pub wind_flip_chance: Decimal,
    pub temp_min: Option<Decimal>,
    pub temp_max: Option<Decimal>,
    pub qnh_min: Option<Decimal>,
    pub qnh_max: Option<Decimal>,
    /// The weight of the profile in the choice among a preset's profiles.
    pub weight: Decimal,
    /// The profiles whose fields this one takes over where it sets none.
    pub inherit: Vec<String>,
    /// Whether the wind headings drawn are turned around. Set anew for each
    /// use of the profile.
    pub is_wind_flipped: bool,
}

/// The weight of a profile that states none.
pub fn default_weight() -> (weight: Decimal)
    ensures
        weight.value() == 100,
{
    Decimal { hundredths: 100 }
}

/// An optional quantity as an optional number of hundredths.
pub open spec fn hundredths(v: Option<Decimal>) -> Option<int> {
    match v {
        Some(d) => Some(d.value()),
        None => None,
    }
}

/// A drawn heading as it is applied: turned around where the wind is
/// flipped.
pub open spec fn oriented(heading: Option<int>, flipped: bool) -> Option<int> {
    match heading {
        Some(h) => Some(if flipped {
            flipped_heading(h)
        } else {
            h
        }),
        None => None,
    }
}

/// Whether `applied` is a heading that the bounds and the flip allow: some
/// outcome of the draw, oriented.
pub open spec fn heading_admits(
    min: Option<int>,
    max: Option<int>,
    flipped: bool,
    applied: Option<int>,
) -> bool {
    exists|drawn: Option<int>| draw_admits(min, max, drawn) && #[trigger] oriented(drawn, flipped) == applied
}

/// Whether a number fits the machine's 64-bit integers.
pub open spec fn fits(v: int) -> bool {
    i64::MIN <= v <= i64::MAX
}

/// The speed of an altitude band, given the speed of the band below and the
/// increase drawn: none where no increase was drawn, a failure where the sum
/// does not fit.
pub open spec fn raised(base: int, increase: Option<int>, field: Field) -> Result<
    Option<int>,
    ConfigError,
> {
    match increase {
        None => Ok(None),
        Some(i) => if fits(base + i) {
            Ok(Some(base + i))
        } else {
            Err(ConfigError::SpeedOverflow { field })
        },
    }
}

/// A result of a draw of a quantity, as plain numbers.
pub open spec fn speed_view(result: Result<Option<Decimal>, ConfigError>) -> Result<
    Option<int>,
    ConfigError,
> {
    match result {
        Ok(v) => Ok(hundredths(v)),
        Err(e) => Err(e),
    }
}

/// What a draw of a quantity may return: a failure for an empty range,
/// else an outcome that the bounds allow.
pub open spec fn quantity_drawn(
    min: Option<Decimal>,
    max: Option<Decimal>,
    field: Field,
    result: Result<Option<Decimal>, ConfigError>,
) -> bool {
    if range_is_empty(hundredths(min), hundredths(max)) {
        result == Err::<Option<Decimal>, ConfigError>(ConfigError::EmptyRange { field })
    } else {
        result matches Ok(drawn) && draw_admits(hundredths(min), hundredths(max), hundredths(drawn))
    }
}

/// What a draw of a whole number may return: a failure for an empty range,
/// else an outcome that the bounds allow.
pub open spec fn number_drawn(
    min: Option<i32>,
    max: Option<i32>,
    field: Field,
    result: Result<Option<i32>, ConfigError>,
) -> bool {
    if range_is_empty(wide32(min), wide32(max)) {
        result == Err::<Option<i32>, ConfigError>(ConfigError::EmptyRange { field })
    } else {
        result matches Ok(drawn) && draw_admits(wide32(min), wide32(max), wide32(drawn))
    }
}

/// What a draw of a heading may return: a failure for an empty range, else
/// an outcome that the bounds allow, oriented.
pub open spec fn heading_drawn(
    min: Option<i32>,
    max: Option<i32>,
    flipped: bool,
    field: Field,
    result: Result<Option<i32>, ConfigError>,
) -> bool {
    if range_is_empty(wide32(min), wide32(max)) {
        result == Err::<Option<i32>, ConfigError>(ConfigError::EmptyRange { field })
    } else {
        result matches Ok(applied) && heading_admits(wide32(min), wide32(max), flipped, wide32(applied))
    }
}

/// What a draw of the speed of an upper band may return: a failure for an
/// empty range, else what the speed below and some outcome of the draw of
/// the increase give.
pub open spec fn speed_drawn(
    min: Option<Decimal>,
    max: Option<Decimal>,
    base: Decimal,
    field: Field,
    result: Result<Option<Decimal>, ConfigError>,
) -> bool {
    if range_is_empty(hundredths(min), hundredths(max)) {
        result == Err::<Option<Decimal>, ConfigError>(ConfigError::EmptyRange { field })
    } else {
        exists|increase: Option<int>|
            draw_admits(hundredths(min), hundredths(max), increase) && #[trigger] raised(
                base.value(),
                increase,
                field,
            ) == speed_view(result)
    }
}

/// Draws a quantity from an optional range.
pub fn draw_quantity(
    min: Option<Decimal>,
    max: Option<Decimal>,
    field: Field,
) -> (result: Result<Option<Decimal>, ConfigError>)
    ensures
        quantity_drawn(min, max, field, result),
{
    let low = match min {
        Some(d) => Some(d.hundredths),
        None => None,
    };
    let high = match max {
        Some(d) => Some(d.hundredths),
        None => None,
    };
    match draw(low, high) {
        Ok(Some(v)) => Ok(Some(Decimal { hundredths: v })),
        Ok(None) => Ok(None),
        Err(_) => Err(ConfigError::EmptyRange { field }),
    }
}

/// Draws a whole number from an optional range.
pub fn draw_number(
    min: Option<i32>,
    max: Option<i32>,
    field: Field,
) -> (result: Result<Option<i32>, ConfigError>)
    ensures
        number_drawn(min, max, field, result),
{
    match draw_i32(min, max) {
        Ok(drawn) => Ok(drawn),
        Err(_) => Err(ConfigError::EmptyRange { field }),
    }
}

/// Orients a drawn heading: turns it around where the wind is flipped.
pub fn orient(heading: Option<i32>, flipped: bool) -> (applied: Option<i32>)
    ensures
        wide32(applied) == oriented(wide32(heading), flipped),
{
    match heading {
        Some(h) => if flipped {
            Some(flip_heading(h))
        } else {
            Some(h)
        },
        None => None,
    }
}

/// Draws a heading from an optional range and orients it.
pub fn draw_heading(
    min: Option<i32>,
    max: Option<i32>,
    flipped: bool,
    field: Field,
) -> (result: Result<Option<i32>, ConfigError>)
    ensures
        heading_drawn(min, max, flipped, field, result),
{
    match draw_i32(min, max) {
        Ok(drawn) => {
            let applied = orient(drawn, flipped);
            assert(oriented(wide32(drawn), flipped) == wide32(applied));
            Ok(applied)
        },
        Err(_) => Err(ConfigError::EmptyRange { field }),
    }
}

/// Adds a drawn increase to the speed of the band below.
pub fn raise(
    base: Decimal,
    increase: Option<Decimal>,
    field: Field,
) -> (result: Result<Option<Decimal>, ConfigError>)
    ensures
        speed_view(result) == raised(base.value(), hundredths(increase), field),
{
    match increase {
        None => Ok(None),
        Some(i) => match base.hundredths.checked_add(i.hundredths) {
            Some(sum) => Ok(Some(Decimal { hundredths: sum })),
            None => Err(ConfigError::SpeedOverflow { field }),
        },
    }
}

/// Draws an increase from an optional range and adds it to the speed of the
/// band below.
pub fn draw_speed(
    min: Option<Decimal>,
    max: Option<Decimal>,
    base: Decimal,
    field: Field,
) -> (result: Result<Option<Decimal>, ConfigError>)
    ensures
        speed_drawn(min, max, base, field, result),
{
    match draw_quantity(min, max, field) {
        Ok(increase) => {
            let result = raise(base, increase, field);
            assert(raised(base.value(), hundredths(increase), field) == speed_view(result));
            result
        },
        Err(e) => Err(e),
    }
}

/// A draw of a whole number, as plain data.
pub open spec fn number_view(drawn: Result<Option<i32>, ConfigError>) -> Result<
    Option<int>,
    ConfigFault,
> {
    match drawn {
        Ok(v) => Ok(wide32(v)),
        Err(e) => Err(e@),
    }
}

/// A draw of a quantity, as plain data.
pub open spec fn quantity_view(drawn: Result<Option<Decimal>, ConfigError>) -> Result<
    Option<int>,
    ConfigFault,
> {
    match drawn {
        Ok(v) => Ok(hundredths(v)),
        Err(e) => Err(e@),
    }
}

/// The speed that an upper band starts from: the speed drawn for the band
/// below, or zero where none was drawn.
pub open spec fn base_speed(below: Result<Option<Decimal>, ConfigError>) -> Decimal {
    match below {
        Ok(Some(speed)) => speed,
        _ => Decimal { hundredths: 0 },
    }
}

/// The speed that an upper band starts from.
pub fn base_of(below: &Result<Option<Decimal>, ConfigError>) -> (base: Decimal)
    ensures
        base == base_speed(*below),
{
    match below {
        Ok(Some(speed)) => *speed,
        _ => Decimal { hundredths: 0 },
    }
}

/// The draws of one application of a weather profile, one for each field
/// that a profile can set.
#[derive(Debug)]
pub struct Draws {
    pub cloud_base: Result<Option<i32>, ConfigError>,
    pub wind_ground_speed: Result<Option<Decimal>, ConfigError>,
    pub wind_ground_heading: Result<Option<i32>, ConfigError>,
    pub wind_2000m_speed: Result<Option<Decimal>, ConfigError>,
    pub wind_2000m_heading: Result<Option<i32>, ConfigError>,
    pub wind_8000m_speed: Result<Option<Decimal>, ConfigError>,
    pub wind_8000m_heading: Result<Option<i32>, ConfigError>,
    pub temperature: Result<Option<Decimal>, ConfigError>,
    pub qnh: Result<Option<Decimal>, ConfigError>,
}

impl Weather {
    /// Whether `draws` is what the profile may draw: each field within its
    /// range, the headings oriented by the wind flip, the speed of each upper
    /// band raised from the speed drawn for the band below.
    pub open spec fn admits(&self, draws: Draws) -> bool {
        &&& number_drawn(self.cloud_base_min, self.cloud_base_max, Field::CloudBase, draws.cloud_base)
        &&& quantity_drawn(
            self.wind_ground_speed_min,
            self.wind_ground_speed_max,
            Field::GroundWindSpeed,
            draws.wind_ground_speed,
        )
        &&& heading_drawn(
            self.wind_ground_heading_min,
            self.wind_ground_heading_max,
            self.is_wind_flipped,
            Field::GroundWindHeading,
            draws.wind_ground_heading,
        )
        &&& speed_drawn(
            self.wind_2000m_increase_speed_min,
            self.wind_2000m_increase_speed_max,
            base_speed(draws.wind_ground_speed),
            Field::Wind2000Speed,
            draws.wind_2000m_speed,
        )
        &&& heading_drawn(
            self.wind_2000m_heading_min,
            self.wind_2000m_heading_max,
            self.is_wind_flipped,
            Field::Wind2000Heading,
            draws.wind_2000m_heading,
        )
        &&& speed_drawn(
            self.wind_8000m_increase_speed_min,
            self.wind_8000m_increase_speed_max,
            base_speed(draws.wind_2000m_speed),
            Field::Wind8000Speed,
            draws.wind_8000m_speed,
        )
        &&& heading_drawn(
            self.wind_8000m_heading_min,
            self.wind_8000m_heading_max,
            self.is_wind_flipped,
            Field::Wind8000Heading,
            draws.wind_8000m_heading,
        )
        &&& quantity_drawn(self.temp_min, self.temp_max, Field::Temperature, draws.temperature)
        &&& quantity_drawn(self.qnh_min, self.qnh_max, Field::Qnh, draws.qnh)
    }

    /// Draws every field of the profile, the wind from the ground up.
    pub fn draw_all(&self) -> (draws: Draws)
        ensures
            self.admits(draws),
    {
        let cloud_base = self.random_cloud_base();
        let wind_ground_speed = self.random_wind_speed_ground();
        let wind_ground_heading = self.random_wind_heading_ground();
        let wind_2000m_speed = self.random_wind_speed_2000m(base_of(&wind_ground_speed));
        let wind_2000m_heading = self.random_wind_heading_2000m();
        let wind_8000m_speed = self.random_wind_speed_8000m(base_of(&wind_2000m_speed));
        let wind_8000m_heading = self.random_wind_heading_8000m();
        let temperature = self.random_temp();
        let qnh = self.random_qnh();
        Draws {
            cloud_base,
            wind_ground_speed,
            wind_ground_heading,
            wind_2000m_speed,
            wind_2000m_heading,
            wind_8000m_speed,
            wind_8000m_heading,
            temperature,
            qnh,
        }
    }

    /// Decides at random, by `wind_flip_chance`, whether the wind headings
    /// are turned around. Nothing else changes. A chance outside 0 to 1 is
    /// refused and leaves the profile as it was.
    pub fn randomize_wind_flip(&mut self) -> (result: Result<(), ConfigError>)
        ensures
            result is Ok <==> chance_valid(old(self).wind_flip_chance.value()),
            result is Err ==> result == Err::<(), ConfigError>(ConfigError::FlipChance) && *final(self)
                == *old(self),
            *final(self) == (Weather { is_wind_flipped: final(self).is_wind_flipped, ..*old(self) }),
            result is Ok && old(self).wind_flip_chance.value() == 0 ==> !final(self).is_wind_flipped,
            result is Ok && old(self).wind_flip_chance.value() == 100 ==> final(self).is_wind_flipped,
    {
        match flip(self.wind_flip_chance.hundredths) {
            Some(flipped) => {
                self.is_wind_flipped = flipped;
                Ok(())
            },
            None => Err(ConfigError::FlipChance),
        }
    }

    /// Draws the altitude of the cloud base.
    pub fn random_cloud_base(&self) -> (result: Result<Option<i32>, ConfigError>)
        ensures
            number_drawn(self.cloud_base_min, self.cloud_base_max, Field::CloudBase, result),
    {
        draw_number(self.cloud_base_min, self.cloud_base_max, Field::CloudBase)
    }

    /// Draws the temperature.
    pub fn random_temp(&self) -> (result: Result<Option<Decimal>, ConfigError>)
        ensures
            quantity_drawn(self.temp_min, self.temp_max, Field::Temperature, result),
    {
        draw_quantity(self.temp_min, self.temp_max, Field::Temperature)
    }

    /// Draws the pressure at sea level.
    pub fn random_qnh(&self) -> (result: Result<Option<Decimal>, ConfigError>)
        ensures
            quantity_drawn(self.qnh_min, self.qnh_max, Field::Qnh, result),
    {
        draw_quantity(self.qnh_min, self.qnh_max, Field::Qnh)
    }

    /// Draws the wind speed at ground.
    pub fn random_wind_speed_ground(&self) -> (result: Result<Option<Decimal>, ConfigError>)
        ensures
            quantity_drawn(
                self.wind_ground_speed_min,
                self.wind_ground_speed_max,
                Field::GroundWindSpeed,
                result,
            ),
    {
        draw_quantity(
            self.wind_ground_speed_min,
            self.wind_ground_speed_max,
            Field::GroundWindSpeed,
        )
    }

    /// Draws the wind heading at ground, turned around where the wind is
    /// flipped.
    pub fn random_wind_heading_ground(&self) -> (result: Result<Option<i32>, ConfigError>)
        ensures
            heading_drawn(
                self.wind_ground_heading_min,
                self.wind_ground_heading_max,
                self.is_wind_flipped,
                Field::GroundWindHeading,
                result,
            ),
    {
        draw_heading(
            self.wind_ground_heading_min,
            self.wind_ground_heading_max,
            self.is_wind_flipped,
            Field::GroundWindHeading,
        )
    }

    /// Draws the wind speed at 2000 m: the speed at ground and an increase.
    pub fn random_wind_speed_2000m(
        &self,
        wind_ground_speed: Decimal,
    ) -> (result: Result<Option<Decimal>, ConfigError>)
        ensures
            speed_drawn(
                self.wind_2000m_increase_speed_min,
                self.wind_2000m_increase_speed_max,
                wind_ground_speed,
                Field::Wind2000Speed,
                result,
            ),
    {
        draw_speed(
            self.wind_2000m_increase_speed_min,
            self.wind_2000m_increase_speed_max,
            wind_ground_speed,
            Field::Wind2000Speed,
        )
    }

    /// Draws the wind heading at 2000 m, turned around where the wind is
    /// flipped.
    pub fn random_wind_heading_2000m(&self) -> (result: Result<Option<i32>, ConfigError>)
        ensures
            heading_drawn(
                self.wind_2000m_heading_min,
                self.wind_2000m_heading_max,
                self.is_wind_flipped,
                Field::Wind2000Heading,
                result,
            ),
    {
        draw_heading(
            self.wind_2000m_heading_min,
            self.wind_2000m_heading_max,
            self.is_wind_flipped,
            Field::Wind2000Heading,
        )
    }

    /// Draws the wind speed at 8000 m: the speed at 2000 m and an increase.
    pub fn random_wind_speed_8000m(
        &self,
        wind_2000m_speed: Decimal,
    ) -> (result: Result<Option<Decimal>, ConfigError>)
        ensures
            speed_drawn(
                self.wind_8000m_increase_speed_min,
                self.wind_8000m_increase_speed_max,
                wind_2000m_speed,
                Field::Wind8000Speed,
                result,
            ),
    {
        draw_speed(
            self.wind_8000m_increase_speed_min,
            self.wind_8000m_increase_speed_max,
            wind_2000m_speed,
            Field::Wind8000Speed,
        )
    }

    /// Draws the wind heading at 8000 m, turned around where the wind is
    /// flipped.
    pub fn random_wind_heading_8000m(&self) -> (result: Result<Option<i32>, ConfigError>)
        ensures
            heading_drawn(
                self.wind_8000m_heading_min,
                self.wind_8000m_heading_max,
                self.is_wind_flipped,
                Field::Wind8000Heading,
                result,
            ),
    {
        draw_heading(
            self.wind_8000m_heading_min,
            self.wind_8000m_heading_max,
            self.is_wind_flipped,
            Field::Wind8000Heading,
        )
    }
}

/// The names of a list of weather profiles, in its order.
pub open spec fn names_of(profiles: Seq<WeatherEntry>) -> Seq<Seq<char>> {
    profiles.map_values(|e: WeatherEntry| e.name@)
}

/// Whether no name occurs twice.
pub open spec fn distinct(names: Seq<Seq<char>>) -> bool {
    forall|i: int, j: int| 0 <= i < j < names.len() ==> names[i] != names[j]
}

/// The names of a list of presets, in its order.
pub open spec fn preset_names(presets: Seq<PresetEntry>) -> Seq<Seq<char>> {
    presets.map_values(|e: PresetEntry| e.name@)
}

/// Whether `name` occurs among the first `count` of `names`.
fn occurs_before(names: &Vec<String>, count: usize, name: &String) -> (occurs: bool)
    requires
        count <= names.len(),
    ensures
        occurs <==> exists|k: int| 0 <= k < count && names[k]@ == name@,
{
    let mut at: usize = 0;
    while at < count
        invariant
            at <= count <= names.len(),
            forall|k: int| 0 <= k < at ==> names[k]@ != name@,
        decreases count - at,
    {
        if names[at] == *name {
            return true;
        }
        at += 1;
    }
    false
}

/// Whether no name of the list occurs twice.
pub fn all_distinct(names: &Vec<String>) -> (yes: bool)
    ensures
        yes == distinct(names@.map_values(|name: String| name@)),
{
    let ghost texts = names@.map_values(|name: String| name@);
    let mut at: usize = 0;
    while at < names.len()
        invariant
            at <= names.len(),
            texts == names@.map_values(|name: String| name@),
            forall|i: int, j: int| 0 <= i < j < at ==> texts[i] != texts[j],
        decreases names.len() - at,
    {
        if occurs_before(names, at, &names[at]) {
            let ghost k = choose|k: int| 0 <= k < at && names[k]@ == names[at as int]@;
            assert(texts[k] == texts[at as int]);
            return false;
        }
        at += 1;
    }
    true
}

impl Config {
    /// Whether the configuration is a mapping by name: no two presets share
    /// a name, and no two weather profiles do.
    pub open spec fn wf(&self) -> bool {
        distinct(preset_names(self.preset@)) && distinct(names_of(self.weather@))
    }

    /// Makes a configuration of presets and weather profiles, unless a name
    /// occurs twice among either.
    pub fn new(
        misc: MiscOptions,
        preset: Vec<PresetEntry>,
        weather: Vec<WeatherEntry>,
    ) -> (config: Option<Config>)
        ensures
            config is Some <==> distinct(preset_names(preset@)) && distinct(names_of(weather@)),
            config matches Some(c) ==> c.wf() && c.misc == misc && c.preset == preset && c.weather
                == weather,
    {
        let mut names: Vec<String> = Vec::new();
        let mut at: usize = 0;
        while at < preset.len()
            invariant
                at <= preset.len(),
                names.len() == at,
                forall|k: int| 0 <= k < at ==> names[k]@ == preset[k].name@,
            decreases preset.len() - at,
        {
            names.push(preset[at].name.clone());
            at += 1;
        }
        assert(names@.map_values(|name: String| name@) =~= preset_names(preset@));
        if !all_distinct(&names) {
            return None;
        }
        let mut names: Vec<String> = Vec::new();
        let mut at: usize = 0;
        while at < weather.len()
            invariant
                at <= weather.len(),
                names.len() == at,
                forall|k: int| 0 <= k < at ==> names[k]@ == weather[k].name@,
            decreases weather.len() - at,
        {
            names.push(weather[at].name.clone());
            at += 1;
        }
        assert(names@.map_values(|name: String| name@) =~= names_of(weather@));
        if !all_distinct(&names) {
            return None;
        }
        Some(Config { misc, preset, weather })
    }
}

impl Default for Weather {
    /// A profile that sets no field: it never flips the wind, and has the
    /// default weight.
    fn default() -> (weather: Weather)
        ensures
            weather.cloud_preset is None,
            weather.cloud_base_min is None && weather.cloud_base_max is None,
            weather.wind_ground_speed_min is None && weather.wind_ground_speed_max is None,
            weather.wind_ground_heading_min is None && weather.wind_ground_heading_max is None,
            weather.wind_2000m_increase_speed_min is None && weather.wind_2000m_increase_speed_max
                is None,
            weather.wind_2000m_heading_min is None && weather.wind_2000m_heading_max is None,
            weather.wind_8000m_increase_speed_min is None && weather.wind_8000m_increase_speed_max
                is None,
            weather.wind_8000m_heading_min is None && weather.wind_8000m_heading_max is None,
            weather.wind_flip_chance.value() == 0,
            weather.temp_min is None && weather.temp_max is None,
            weather.qnh_min is None && weather.qnh_max is None,
            weather.weight.value() == 100,
            weather.inherit@.len() == 0,
            !weather.is_wind_flipped,
    {
        Weather {
            cloud_preset: None,
            cloud_base_min: None,
            cloud_base_max: None,
            wind_ground_speed_min: None,
            wind_ground_speed_max: None,
            wind_ground_heading_min: None,
            wind_ground_heading_max: None,
            wind_2000m_increase_speed_min: None,
            wind_2000m_increase_speed_max: None,
            wind_2000m_heading_min: None,
            wind_2000m_heading_max: None,
            wind_8000m_increase_speed_min: None,
            wind_8000m_increase_speed_max: None,
            wind_8000m_heading_min: None,
            wind_8000m_heading_max: None,
            wind_flip_chance: Decimal { hundredths: 0 },
            temp_min: None,
            temp_max: None,
            qnh_min: None,
            qnh_max: None,
            weight: default_weight(),
            inherit: Vec::new(),
            is_wind_flipped: false,
        }
    }
}

/// The wind flip of one use of a profile: the flip drawn, inverted where
/// the preset asks for it.
pub fn combine_flip(drawn: bool, flip_wind: bool) -> (flipped: bool)
    ensures
        flipped == (drawn != flip_wind),
{
    if flip_wind {
        !drawn
    } else {
        drawn
    }
}

/// Whether `after` is `before` with nothing changed but the wind flip.
pub open spec fn same_but_flip(before: Weather, after: Weather) -> bool {
    after == (Weather { is_wind_flipped: after.is_wind_flipped, ..before })
}

impl Weather {
    /// Sets the wind flip for one use of the profile by a preset: drawn by
    /// `wind_flip_chance`, and inverted where the preset asks for it. A chance
    /// outside 0 to 1 is refused and leaves the profile as it was.
    pub fn settle_wind_flip(&mut self, flip_wind: bool) -> (result: Result<(), ConfigError>)
        ensures
            result is Ok <==> chance_valid(old(self).wind_flip_chance.value()),
            result is Err ==> result == Err::<(), ConfigError>(ConfigError::FlipChance) && *final(self)
                == *old(self),
            same_but_flip(*old(self), *final(self)),
            result is Ok && old(self).wind_flip_chance.value() == 0 ==> final(self).is_wind_flipped
                == flip_wind,
            result is Ok && old(self).wind_flip_chance.value() == 100 ==> final(self).is_wind_flipped
                == !flip_wind,
    {
        match self.randomize_wind_flip() {
            Ok(()) => {
                self.is_wind_flipped = combine_flip(self.is_wind_flipped, flip_wind);
                Ok(())
            },
            Err(e) => Err(e),
        }
    }
}

} // verus!
