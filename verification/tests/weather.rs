use miz_repacker::config::{Draws, Weather};
use miz_repacker::decimal::Decimal;
use miz_repacker::error::{ConfigError, Field, PatchError, RepackError};
use miz_repacker::weather::clouds::{modify_cloud_base, modify_cloud_preset};
use miz_repacker::weather::misc::{modify_qnh, modify_temp};
use miz_repacker::weather::wind::{modify_2000m_wind, modify_8000m_wind, modify_ground_wind, set_wind};
use miz_repacker::weather::{
    apply_weather, modify_weather, set_number, set_number_after, set_quantity, set_quantity_after, Style,
};

const CLOUDS: &str = "        [\"clouds\"] = \n        {\n            [\"thickness\"] = 200,\n            [\"preset\"] = \"Preset2\",\n            [\"base\"] = 2400,\n        }, -- end of [\"clouds\"]\n";
const SEASON: &str = "        [\"qnh\"] = 760,\n        [\"temperature\"] = 20,\n";
const GROUND: &str = "            [atGround] = {                [speed] = 5,                [dir] = 90,}\n";
const MIDDLE: &str = "            [at2000m] = {                [speed] = 6,                [dir] = 100,}\n";
const HIGH: &str = "            [at8000m] = {                [speed] = 7,                [dir] = 110,}\n";

fn mission() -> String {
    format!("{}{}{}{}{}", CLOUDS, SEASON, HIGH, MIDDLE, GROUND)
}

fn dec(hundredths: i64) -> Decimal {
    Decimal { hundredths }
}

fn not_found(field: Field) -> RepackError {
    RepackError::Patch(PatchError::AnchorNotFound { field })
}

fn no_draws() -> Draws {
    Draws {
        cloud_base: Ok(None),
        wind_ground_speed: Ok(None),
        wind_ground_heading: Ok(None),
        wind_2000m_speed: Ok(None),
        wind_2000m_heading: Ok(None),
        wind_8000m_speed: Ok(None),
        wind_8000m_heading: Ok(None),
        temperature: Ok(None),
        qnh: Ok(None),
    }
}

#[test]
fn cloud_base_is_patched_where_the_anchor_stands() {
    let mut weather = Weather::default();
    weather.cloud_base_min = Some(1500);
    weather.cloud_base_max = Some(1500);
    let patched = modify_cloud_base(&mission(), &weather, false);
    assert_eq!(patched.drawn, Ok(Some(1500)));
    assert_eq!(patched.mission, Ok(mission().replace("[\"base\"] = 2400,", "[\"base\"] = 1500,")));
}

#[test]
fn cloud_base_without_anchor_fails() {
    let mut weather = Weather::default();
    weather.cloud_base_min = Some(1000);
    weather.cloud_base_max = Some(2000);
    let lacking = mission().replace("[\"base\"]", "[\"bottom\"]");
    let patched = modify_cloud_base(&lacking, &weather, false);
    assert_eq!(patched.mission, Err(not_found(Field::CloudBase)));
    let drawn = patched.drawn.unwrap().unwrap();
    assert!((1000..=2000).contains(&drawn));
}

#[test]
fn cloud_base_drawn_from_a_range_leaves_the_rest_alone() {
    let mut weather = Weather::default();
    weather.cloud_base_min = Some(1000);
    weather.cloud_base_max = Some(2000);
    for _ in 0..50 {
        let patched = modify_cloud_base(&mission(), &weather, false);
        let drawn = patched.drawn.unwrap().unwrap();
        assert!((1000..=2000).contains(&drawn));
        let out = patched.mission.unwrap();
        let at = mission().find("2400").unwrap();
        assert_eq!(&out[..at], &mission()[..at]);
        assert_eq!(&out[at..at + 4], drawn.to_string());
        assert_eq!(&out[at + 4..], &mission()[at + 4..]);
    }
}

#[test]
fn unset_cloud_base_touches_nothing() {
    let weather = Weather::default();
    let patched = modify_cloud_base("no anchors at all", &weather, false);
    assert_eq!(patched.drawn, Ok(None));
    assert_eq!(patched.mission, Ok("no anchors at all".to_string()));
}

#[test]
fn cloud_base_in_a_dry_run_needs_no_anchor() {
    let mut weather = Weather::default();
    weather.cloud_base_max = Some(900);
    let patched = modify_cloud_base("dry run", &weather, true);
    assert_eq!(patched.drawn, Ok(Some(900)));
    assert_eq!(patched.mission, Ok("dry run".to_string()));
}

#[test]
fn cloud_base_of_an_empty_range_is_a_configuration_error() {
    let mut weather = Weather::default();
    weather.cloud_base_min = Some(2);
    weather.cloud_base_max = Some(1);
    for dry_run in [false, true] {
        let patched = modify_cloud_base(&mission(), &weather, dry_run);
        assert_eq!(patched.drawn, Err(ConfigError::EmptyRange { field: Field::CloudBase }));
        assert_eq!(
            patched.mission,
            Err(RepackError::Config(ConfigError::EmptyRange { field: Field::CloudBase }))
        );
    }
}

#[test]
fn cloud_preset_is_written_between_quotes() {
    let mut weather = Weather::default();
    weather.cloud_preset = Some("RainyPreset1".to_string());
    assert_eq!(
        modify_cloud_preset(&mission(), "storm", &weather, false),
        Ok(mission().replace("\"Preset2\"", "\"RainyPreset1\""))
    );
}

#[test]
fn cloud_preset_must_be_declared() {
    let weather = Weather::default();
    let expected = RepackError::Config(ConfigError::CloudPresetMissing { profile: "storm".to_string() });
    assert_eq!(modify_cloud_preset(&mission(), "storm", &weather, false), Err(expected));
    let expected = RepackError::Config(ConfigError::CloudPresetMissing { profile: "storm".to_string() });
    assert_eq!(modify_cloud_preset("dry run", "storm", &weather, true), Err(expected));
}

#[test]
fn cloud_preset_anchor_is_looked_for_first() {
    let weather = Weather::default();
    assert_eq!(
        modify_cloud_preset("no anchor", "storm", &weather, false),
        Err(not_found(Field::CloudPreset))
    );
    let mut weather = Weather::default();
    weather.cloud_preset = Some("P".to_string());
    assert_eq!(
        modify_cloud_preset("no anchor", "storm", &weather, false),
        Err(not_found(Field::CloudPreset))
    );
    assert_eq!(modify_cloud_preset("no anchor", "storm", &weather, true), Ok("no anchor".to_string()));
}

#[test]
fn temperature_and_pressure_have_two_fractional_digits() {
    let mut weather = Weather::default();
    weather.temp_min = Some(dec(1550));
    weather.qnh_max = Some(dec(75512));
    let patched = modify_temp(&mission(), &weather, false);
    assert_eq!(patched.drawn, Ok(Some(dec(1550))));
    assert_eq!(patched.mission, Ok(mission().replace("[\"temperature\"] = 20,", "[\"temperature\"] = 15.50,")));
    let patched = modify_qnh(&mission(), &weather, false);
    assert_eq!(patched.drawn, Ok(Some(dec(75512))));
    assert_eq!(patched.mission, Ok(mission().replace("[\"qnh\"] = 760,", "[\"qnh\"] = 755.12,")));
}

#[test]
fn temperature_and_pressure_need_their_anchors() {
    let mut weather = Weather::default();
    weather.temp_min = Some(dec(1550));
    weather.qnh_max = Some(dec(75512));
    assert_eq!(modify_temp(CLOUDS, &weather, false).mission, Err(not_found(Field::Temperature)));
    assert_eq!(modify_qnh(CLOUDS, &weather, false).mission, Err(not_found(Field::Qnh)));
    assert_eq!(modify_temp(CLOUDS, &weather, true).mission, Ok(CLOUDS.to_string()));
    assert_eq!(modify_qnh(CLOUDS, &weather, true).mission, Ok(CLOUDS.to_string()));
    let unset = Weather::default();
    assert_eq!(modify_temp(CLOUDS, &unset, false).mission, Ok(CLOUDS.to_string()));
    assert_eq!(modify_qnh(CLOUDS, &unset, false).mission, Ok(CLOUDS.to_string()));
}

#[test]
fn temperature_drawn_from_a_range() {
    let mut weather = Weather::default();
    weather.temp_min = Some(dec(-550));
    weather.temp_max = Some(dec(-500));
    weather.qnh_min = Some(dec(2));
    weather.qnh_max = Some(dec(1));
    for _ in 0..50 {
        let patched = modify_temp(&mission(), &weather, false);
        let drawn = patched.drawn.unwrap().unwrap();
        assert!((-550..=-500).contains(&drawn.hundredths));
        let text = format!("{:.2}", drawn.hundredths as f64 / 100.0);
        assert_eq!(
            patched.mission,
            Ok(mission().replace("[\"temperature\"] = 20,", &format!("[\"temperature\"] = {},", text)))
        );
    }
    let patched = modify_qnh(&mission(), &weather, false);
    assert_eq!(
        patched.mission,
        Err(RepackError::Config(ConfigError::EmptyRange { field: Field::Qnh }))
    );
}

#[test]
fn wind_at_ground_is_patched_in_its_own_block() {
    let mut weather = Weather::default();
    weather.wind_ground_speed_min = Some(dec(350));
    weather.wind_ground_heading_max = Some(45);
    let patched = modify_ground_wind(&mission(), &weather, &mut dec(0), false);
    assert_eq!(patched.speed, Ok(Some(dec(350))));
    assert_eq!(patched.heading, Ok(Some(45)));
    let expected = mission().replace(GROUND, &GROUND.replace("= 5,", "= 3.5,").replace("= 90,", "= 45,"));
    assert_eq!(patched.mission, Ok(expected));
}

#[test]
fn flipped_wind_heading_is_patched_turned_around() {
    let mut weather = Weather::default();
    weather.is_wind_flipped = true;
    weather.wind_ground_heading_min = Some(90);
    weather.wind_2000m_heading_min = Some(350);
    let patched = modify_ground_wind(&mission(), &weather, &mut dec(0), false);
    assert_eq!(patched.heading, Ok(Some(270)));
    assert_eq!(patched.mission, Ok(mission().replace(GROUND, &GROUND.replace("= 90,", "= 270,"))));
    let patched = modify_2000m_wind(&mission(), &weather, dec(0), &mut dec(0), false);
    assert_eq!(patched.speed, Ok(None));
    assert_eq!(patched.heading, Ok(Some(170)));
    assert_eq!(patched.mission, Ok(mission().replace(MIDDLE, &MIDDLE.replace("= 100,", "= 170,"))));
}

#[test]
fn wind_of_the_upper_bands_rises_from_the_band_below() {
    let mut weather = Weather::default();
    weather.wind_2000m_increase_speed_min = Some(dec(225));
    weather.wind_8000m_increase_speed_max = Some(dec(1000));
    weather.wind_8000m_heading_min = Some(300);
    let patched = modify_2000m_wind(&mission(), &weather, dec(350), &mut dec(0), false);
    assert_eq!(patched.speed, Ok(Some(dec(575))));
    assert_eq!(patched.mission, Ok(mission().replace(MIDDLE, &MIDDLE.replace("= 6,", "= 5.75,"))));
    let patched = modify_8000m_wind(&mission(), &weather, dec(575), false);
    assert_eq!(patched.speed, Ok(Some(dec(1575))));
    assert_eq!(patched.heading, Ok(Some(300)));
    let expected = mission().replace(HIGH, &HIGH.replace("= 7,", "= 15.75,").replace("= 110,", "= 300,"));
    assert_eq!(patched.mission, Ok(expected));
}

#[test]
fn wind_with_unset_increase_leaves_the_speed_alone() {
    let mut weather = Weather::default();
    weather.wind_2000m_heading_min = Some(10);
    let patched = modify_2000m_wind(&mission(), &weather, dec(350), &mut dec(0), false);
    assert_eq!(patched.speed, Ok(None));
    assert_eq!(patched.mission, Ok(mission().replace(MIDDLE, &MIDDLE.replace("= 100,", "= 10,"))));
    let patched = modify_8000m_wind(&mission(), &Weather::default(), dec(350), false);
    assert_eq!(patched.mission, Ok(mission()));
}

#[test]
fn wind_needs_the_anchor_of_its_band() {
    let only_ground = format!("{}{}", CLOUDS, GROUND);
    let mut weather = Weather::default();
    weather.wind_ground_speed_min = Some(dec(100));
    weather.wind_ground_heading_min = Some(1);
    weather.wind_2000m_increase_speed_min = Some(dec(100));
    weather.wind_2000m_heading_min = Some(1);
    weather.wind_8000m_heading_min = Some(1);
    assert!(modify_ground_wind(&only_ground, &weather, &mut dec(0), false).mission.is_ok());
    assert_eq!(
        modify_2000m_wind(&only_ground, &weather, dec(0), &mut dec(0), false).mission,
        Err(not_found(Field::Wind2000Speed))
    );
    assert_eq!(
        modify_8000m_wind(&only_ground, &weather, dec(0), false).mission,
        Err(not_found(Field::Wind8000Heading))
    );
    assert_eq!(
        modify_ground_wind(MIDDLE, &weather, &mut dec(0), false).mission,
        Err(not_found(Field::GroundWindSpeed))
    );
    assert_eq!(modify_ground_wind(MIDDLE, &weather, &mut dec(0), true).mission, Ok(MIDDLE.to_string()));
    let speed_only = "            [atGround] = {                [speed] = 5,}\n";
    assert_eq!(
        modify_ground_wind(speed_only, &weather, &mut dec(0), false).mission,
        Err(not_found(Field::GroundWindHeading))
    );
}

#[test]
fn wind_speed_is_written_before_the_heading() {
    let draw = Err(ConfigError::EmptyRange { field: Field::GroundWindHeading });
    assert_eq!(
        set_wind("none", Field::GroundWindSpeed, Field::GroundWindHeading, &Ok(Some(dec(1))), &draw, false),
        Err(not_found(Field::GroundWindSpeed))
    );
    assert_eq!(
        set_wind(GROUND, Field::GroundWindSpeed, Field::GroundWindHeading, &Ok(Some(dec(1))), &draw, false),
        Err(RepackError::Config(ConfigError::EmptyRange { field: Field::GroundWindHeading }))
    );
}

#[test]
fn values_are_written_in_their_style() {
    let text = "[\"qnh\"] = 1,";
    assert_eq!(set_quantity(text, Field::Qnh, &Ok(Some(dec(1250))), Style::Fixed, false), Ok("[\"qnh\"] = 12.50,".to_string()));
    assert_eq!(set_quantity(text, Field::Qnh, &Ok(Some(dec(1250))), Style::Short, false), Ok("[\"qnh\"] = 12.5,".to_string()));
    assert_eq!(set_quantity(text, Field::Qnh, &Ok(Some(dec(1250))), Style::Whole, false), Ok("[\"qnh\"] = 1250,".to_string()));
    assert_eq!(set_number(text, Field::Qnh, &Ok(Some(-12)), false), Ok("[\"qnh\"] = -12,".to_string()));
    assert_eq!(set_number(text, Field::Qnh, &Ok(None), false), Ok(text.to_string()));
    assert_eq!(
        set_number(text, Field::Qnh, &Err(ConfigError::FlipChance), false),
        Err(RepackError::Config(ConfigError::FlipChance))
    );
}

#[test]
fn an_operation_after_a_failure_passes_the_failure_on() {
    let failed = || Err(not_found(Field::CloudBase));
    assert_eq!(set_number_after(failed(), Field::Qnh, &Ok(Some(1)), false), failed());
    assert_eq!(set_quantity_after(failed(), Field::Qnh, &Ok(Some(dec(1))), Style::Fixed, true), failed());
    assert_eq!(
        set_number_after(Ok("[\"qnh\"] = 1,".to_string()), Field::Qnh, &Ok(Some(2)), false),
        Ok("[\"qnh\"] = 2,".to_string())
    );
    assert_eq!(
        set_quantity_after(Ok("[\"qnh\"] = 1,".to_string()), Field::Qnh, &Ok(Some(dec(2))), Style::Fixed, false),
        Ok("[\"qnh\"] = 0.02,".to_string())
    );
}

#[test]
fn weather_is_applied_field_by_field() {
    let mut weather = Weather::default();
    weather.cloud_preset = Some("Preset7".to_string());
    let draws = Draws {
        cloud_base: Ok(Some(1200)),
        wind_ground_speed: Ok(Some(dec(300))),
        wind_ground_heading: Ok(Some(10)),
        wind_2000m_speed: Ok(Some(dec(450))),
        wind_2000m_heading: Ok(Some(20)),
        wind_8000m_speed: Ok(Some(dec(1025))),
        wind_8000m_heading: Ok(Some(30)),
        temperature: Ok(Some(dec(-250))),
        qnh: Ok(Some(dec(74000))),
    };
    let expected = mission()
        .replace("\"Preset2\"", "\"Preset7\"")
        .replace("[\"base\"] = 2400,", "[\"base\"] = 1200,")
        .replace(GROUND, &GROUND.replace("= 5,", "= 3,").replace("= 90,", "= 10,"))
        .replace(MIDDLE, &MIDDLE.replace("= 6,", "= 4.5,").replace("= 100,", "= 20,"))
        .replace(HIGH, &HIGH.replace("= 7,", "= 10.25,").replace("= 110,", "= 30,"))
        .replace("[\"temperature\"] = 20,", "[\"temperature\"] = -2.50,")
        .replace("[\"qnh\"] = 760,", "[\"qnh\"] = 740.00,");
    assert_eq!(apply_weather(&mission(), "storm", &weather, &draws, false), Ok(expected));
}

#[test]
fn the_first_failure_ends_the_application() {
    let mut weather = Weather::default();
    weather.cloud_preset = Some("Preset7".to_string());
    let mut draws = no_draws();
    draws.wind_ground_speed = Ok(Some(dec(1)));
    draws.temperature = Err(ConfigError::EmptyRange { field: Field::Temperature });
    draws.qnh = Ok(Some(dec(1)));
    let lacking = format!("{}{}", CLOUDS, MIDDLE);
    assert_eq!(
        apply_weather(&lacking, "storm", &weather, &draws, false),
        Err(not_found(Field::GroundWindSpeed))
    );
    assert_eq!(
        apply_weather(&mission(), "storm", &weather, &draws, false),
        Err(RepackError::Config(ConfigError::EmptyRange { field: Field::Temperature }))
    );
    assert_eq!(
        apply_weather("", "storm", &weather, &draws, false),
        Err(not_found(Field::CloudPreset))
    );
    assert_eq!(
        apply_weather(&mission(), "storm", &Weather::default(), &draws, false),
        Err(RepackError::Config(ConfigError::CloudPresetMissing { profile: "storm".to_string() }))
    );
}

#[test]
fn weather_is_drawn_and_applied() {
    let mut weather = Weather::default();
    weather.cloud_preset = Some("Preset7".to_string());
    weather.cloud_base_min = Some(1000);
    weather.cloud_base_max = Some(1010);
    weather.wind_ground_speed_min = Some(dec(200));
    weather.wind_ground_speed_max = Some(dec(300));
    weather.wind_ground_heading_min = Some(90);
    weather.wind_2000m_increase_speed_min = Some(dec(100));
    weather.wind_2000m_heading_min = Some(350);
    weather.wind_8000m_increase_speed_min = Some(dec(100));
    weather.wind_8000m_increase_speed_max = Some(dec(200));
    weather.temp_max = Some(dec(1800));
    weather.is_wind_flipped = true;
    for _ in 0..10 {
        let patched = modify_weather(mission(), "storm", &weather, false);
        let draws = &patched.draws;
        let base = draws.cloud_base.clone().unwrap().unwrap();
        let ground = draws.wind_ground_speed.clone().unwrap().unwrap();
        let middle = draws.wind_2000m_speed.clone().unwrap().unwrap();
        let high = draws.wind_8000m_speed.clone().unwrap().unwrap();
        assert!((1000..=1010).contains(&base));
        assert!((200..=300).contains(&ground.hundredths));
        assert_eq!(middle.hundredths, ground.hundredths + 100);
        assert!((middle.hundredths + 100..=middle.hundredths + 200).contains(&high.hundredths));
        assert_eq!(draws.wind_ground_heading, Ok(Some(270)));
        assert_eq!(draws.wind_2000m_heading, Ok(Some(170)));
        assert_eq!(draws.wind_8000m_heading, Ok(None));
        assert_eq!(draws.temperature, Ok(Some(dec(1800))));
        assert_eq!(draws.qnh, Ok(None));
        assert_eq!(patched.mission, apply_weather(&mission(), "storm", &weather, draws, false));
        let out = patched.mission.unwrap();
        assert!(out.contains(&format!("[\"base\"] = {},", base)));
        assert!(out.contains(&format!("[speed] = {},                [dir] = 270,", ground.render_short())));
        assert!(out.contains(&format!("[speed] = {},                [dir] = 170,", middle.render_short())));
        assert!(out.contains(&format!("[speed] = {},                [dir] = 110,", high.render_short())));
        assert!(out.contains("[\"temperature\"] = 18.00,"));
        assert!(out.contains("[\"qnh\"] = 760,"));
    }
}

#[test]
fn weather_in_a_dry_run_checks_the_configuration_only() {
    let mut weather = Weather::default();
    weather.cloud_preset = Some("Preset7".to_string());
    weather.cloud_base_min = Some(1000);
    weather.qnh_min = Some(dec(75000));
    let patched = modify_weather("dry run".to_string(), "storm", &weather, true);
    assert_eq!(patched.mission, Ok("dry run".to_string()));
    assert_eq!(patched.draws.cloud_base, Ok(Some(1000)));
    weather.qnh_max = Some(dec(100));
    let patched = modify_weather("dry run".to_string(), "storm", &weather, true);
    assert_eq!(
        patched.mission,
        Err(RepackError::Config(ConfigError::EmptyRange { field: Field::Qnh }))
    );
}

#[test]
fn wind_speed_is_passed_on_once_it_is_written() {
    let mut weather = Weather::default();
    weather.wind_ground_speed_min = Some(dec(350));
    weather.wind_2000m_increase_speed_min = Some(dec(150));
    let mut ground = dec(0);
    let mut middle = dec(0);
    let patched = modify_ground_wind(&mission(), &weather, &mut ground, false);
    assert_eq!(ground, dec(350));
    let patched = modify_2000m_wind(&patched.mission.unwrap(), &weather, ground, &mut middle, false);
    assert_eq!(middle, dec(500));
    let patched = modify_8000m_wind(&patched.mission.unwrap(), &weather, middle, false);
    assert_eq!(patched.speed, Ok(None));
    let expected = mission()
        .replace(GROUND, &GROUND.replace("= 5,", "= 3.5,"))
        .replace(MIDDLE, &MIDDLE.replace("= 6,", "= 5,"));
    assert_eq!(patched.mission, Ok(expected));
}

#[test]
fn wind_speed_that_is_not_written_is_not_passed_on() {
    let mut weather = Weather::default();
    weather.wind_ground_speed_min = Some(dec(350));
    let mut ground = dec(-1);
    let patched = modify_ground_wind("no anchor", &weather, &mut ground, false);
    assert!(patched.mission.is_err());
    assert_eq!(patched.speed, Ok(Some(dec(350))));
    assert_eq!(ground, dec(-1));
    let patched = modify_ground_wind("no anchor", &weather, &mut ground, true);
    assert_eq!(patched.mission, Ok("no anchor".to_string()));
    assert_eq!(ground, dec(350));
    let mut middle = dec(-1);
    let patched = modify_2000m_wind(&mission(), &weather, ground, &mut middle, false);
    assert_eq!(patched.speed, Ok(None));
    assert_eq!(middle, dec(-1));
    weather.wind_ground_speed_max = Some(dec(1));
    let mut ground = dec(-1);
    let patched = modify_ground_wind(&mission(), &weather, &mut ground, false);
    assert!(patched.mission.is_err());
    assert_eq!(ground, dec(-1));
}
