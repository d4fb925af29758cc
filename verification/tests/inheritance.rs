use miz_repacker::error::ConfigError;
use miz_repacker::inherit::{merge_tables, preprocess_inheritance, resolve_profile};
use toml::value::Table;
use toml::Value;

fn read(text: &str) -> Value {
    text.parse::<Value>().unwrap()
}

fn table(text: &str) -> Table {
    match read(text) {
        Value::Table(table) => table,
        _ => unreachable!(),
    }
}

fn field<'a>(config: &'a Value, profile: &str, key: &str) -> Option<&'a Value> {
    config.get("weather").unwrap().get(profile).unwrap().get(key)
}

#[test]
fn field_left_out_is_inherited() {
    let config = read("[weather.A]\nx = 10\n[weather.B]\ninherit = [\"A\"]\n");
    let resolved = preprocess_inheritance(config).unwrap();
    assert_eq!(field(&resolved, "B", "x"), Some(&Value::Integer(10)));
    assert_eq!(field(&resolved, "A", "x"), Some(&Value::Integer(10)));
    assert_eq!(field(&resolved, "A", "inherit"), None);
}

#[test]
fn own_field_stands_over_an_inherited_one() {
    let config = read("[weather.A]\nx = 10\ny = 1.5\n[weather.B]\ninherit = [\"A\"]\nx = 20\n");
    let resolved = preprocess_inheritance(config).unwrap();
    assert_eq!(field(&resolved, "B", "x"), Some(&Value::Integer(20)));
    assert_eq!(field(&resolved, "B", "y"), Some(&Value::Float(1.5)));
    assert_eq!(field(&resolved, "A", "x"), Some(&Value::Integer(10)));
}

#[test]
fn resolved_profile_keeps_its_own_inherit_list() {
    let config = read("[weather.A]\ninherit = []\nx = 1\n[weather.B]\ninherit = [\"A\"]\n");
    let resolved = preprocess_inheritance(config).unwrap();
    assert_eq!(
        field(&resolved, "B", "inherit"),
        Some(&Value::Array(vec![Value::String("A".to_string())]))
    );
    assert_eq!(field(&resolved, "A", "inherit"), Some(&Value::Array(vec![])));
    assert_eq!(field(&resolved, "B", "x"), Some(&Value::Integer(1)));
}

#[test]
fn later_name_stands_over_an_earlier_one() {
    let config = read(
        "[weather.A]\nx = 1\ny = 1\nz = 1\n[weather.B]\nx = 2\ny = 2\n[weather.C]\ninherit = [\"A\", \"B\"]\nx = 3\n",
    );
    let resolved = preprocess_inheritance(config).unwrap();
    assert_eq!(field(&resolved, "C", "x"), Some(&Value::Integer(3)));
    assert_eq!(field(&resolved, "C", "y"), Some(&Value::Integer(2)));
    assert_eq!(field(&resolved, "C", "z"), Some(&Value::Integer(1)));
}

#[test]
fn profiles_are_resolved_in_the_order_of_the_section() {
    let config = read(
        "[weather.A]\ninherit = [\"B\"]\n[weather.B]\ninherit = [\"C\"]\ny = 2\n[weather.C]\nz = 3\n",
    );
    let resolved = preprocess_inheritance(config).unwrap();
    assert_eq!(field(&resolved, "A", "y"), Some(&Value::Integer(2)));
    assert_eq!(field(&resolved, "A", "z"), None);
    assert_eq!(field(&resolved, "B", "z"), Some(&Value::Integer(3)));

    let config = read(
        "[weather.A]\nz = 3\n[weather.B]\ninherit = [\"A\"]\ny = 2\n[weather.C]\ninherit = [\"B\"]\n",
    );
    let resolved = preprocess_inheritance(config).unwrap();
    assert_eq!(field(&resolved, "C", "y"), Some(&Value::Integer(2)));
    assert_eq!(field(&resolved, "C", "z"), Some(&Value::Integer(3)));
}

#[test]
fn profiles_that_inherit_from_each_other_resolve() {
    let config = read("[weather.A]\ninherit = [\"B\"]\nx = 1\n[weather.B]\ninherit = [\"A\"]\ny = 2\n");
    let resolved = preprocess_inheritance(config).unwrap();
    assert_eq!(field(&resolved, "A", "x"), Some(&Value::Integer(1)));
    assert_eq!(field(&resolved, "A", "y"), Some(&Value::Integer(2)));
    assert_eq!(field(&resolved, "B", "x"), Some(&Value::Integer(1)));
    assert_eq!(field(&resolved, "B", "y"), Some(&Value::Integer(2)));
}

#[test]
fn missing_profile_is_named_with_the_one_that_cites_it() {
    let config = read("[weather.A]\nx = 10\n[weather.B]\ninherit = [\"A\", \"Z\"]\n");
    let error = preprocess_inheritance(config).unwrap_err();
    assert_eq!(
        error,
        ConfigError::InheritMissing { profile: "B".to_string(), target: "Z".to_string() }
    );
    assert_eq!(
        error.message(),
        "Preset 'B' tries to inherit values from 'Z', but the referenced preset does not exist"
    );
}

#[test]
fn inherited_entry_must_be_a_table() {
    let config = read("[weather]\nA = 5\n[weather.B]\ninherit = [\"A\"]\n");
    let error = preprocess_inheritance(config).unwrap_err();
    assert_eq!(
        error,
        ConfigError::InheritNotTable { profile: "B".to_string(), target: "A".to_string() }
    );
    assert_eq!(
        error.message(),
        "Preset 'B' tries to inherit values from 'A', but it is not a table"
    );
}

#[test]
fn first_failure_in_the_order_of_the_section_is_reported() {
    let config = read("[weather.B]\ninherit = [\"Y\", \"Z\"]\n[weather.A]\ninherit = [\"X\"]\n");
    assert_eq!(
        preprocess_inheritance(config),
        Err(ConfigError::InheritMissing { profile: "A".to_string(), target: "X".to_string() })
    );
}

#[test]
fn configuration_without_weather_section_stays() {
    for text in ["", "[preset.day]\ntime = \"12\"\n", "weather = 5\n", "weather = [1, 2]\n"] {
        assert_eq!(preprocess_inheritance(read(text)), Ok(read(text)));
    }
    assert_eq!(preprocess_inheritance(Value::Integer(5)), Ok(Value::Integer(5)));
}

#[test]
fn all_but_the_inheriting_profiles_stays() {
    let text = "[misc]\nremove_required_modules = true\n[preset.day]\ntime = \"12:00\"\nweather = [\"B\"]\n[weather]\nnote = \"kept\"\n[weather.A]\nx = 10\ninherit = \"A\"\n[weather.B]\ninherit = [\"A\", 5, [\"A\"]]\nw = [1, 2]\n";
    let resolved = preprocess_inheritance(read(text)).unwrap();
    let expected = read(
        "[misc]\nremove_required_modules = true\n[preset.day]\ntime = \"12:00\"\nweather = [\"B\"]\n[weather]\nnote = \"kept\"\n[weather.A]\nx = 10\ninherit = \"A\"\n[weather.B]\ninherit = [\"A\", 5, [\"A\"]]\nw = [1, 2]\nx = 10\n",
    );
    assert_eq!(resolved, expected);
}

#[test]
fn merge_copies_the_source_over_the_destination() {
    let merged = merge_tables(table("a = 1\nb = 2\n"), &table("b = 3\nc = 4\n"));
    assert_eq!(merged, table("a = 1\nb = 3\nc = 4\n"));
    assert_eq!(merge_tables(Table::new(), &table("a = 1\n")), table("a = 1\n"));
    assert_eq!(merge_tables(table("a = 1\n"), &Table::new()), table("a = 1\n"));
}

#[test]
fn one_profile_resolved_within_its_section() {
    let section = table("[A]\nx = 1\n[B]\ninherit = [\"A\"]\ny = 2\n[C]\ninherit = [\"Q\"]\n");
    assert_eq!(resolve_profile(&section, "A"), Ok(None));
    assert_eq!(resolve_profile(&section, "nobody"), Ok(None));
    assert_eq!(
        resolve_profile(&section, "B"),
        Ok(Some(table("inherit = [\"A\"]\nx = 1\ny = 2\n")))
    );
    assert_eq!(
        resolve_profile(&section, "C"),
        Err(ConfigError::InheritMissing { profile: "C".to_string(), target: "Q".to_string() })
    );
}
