use miz_repacker::anchor::{find, group, patch_field, splice, Captured};
use miz_repacker::error::{Field, PatchError};
use miz_repacker::misc::{add_suffix, remove_required_modules, splice_filename, strip_modules, INDENT};

fn captured(before: &str, whole: &str, groups: &[Option<&str>], after: &str) -> Captured {
    Captured {
        before: before.to_string(),
        whole: whole.to_string(),
        groups: groups.iter().map(|g| g.map(|s| s.to_string())).collect(),
        after: after.to_string(),
    }
}

#[test]
fn search_cuts_the_text_at_the_first_match() {
    let found = find(r"(\w+)@(\w+)?(\.com)", false, "to: ann@.com, bob@site.com").unwrap();
    assert_eq!(
        found,
        Some(captured("to: ", "ann@.com", &[Some("ann"), None, Some(".com")], ", bob@site.com"))
    );
}

#[test]
fn search_without_match_finds_nothing() {
    assert_eq!(find(r"\d+", false, "no digits here"), Ok(None));
    assert_eq!(find(r"x", false, ""), Ok(None));
}

#[test]
fn search_with_empty_match() {
    assert_eq!(find(r"\d*", false, "abc"), Ok(Some(captured("", "", &[], "abc"))));
}

#[test]
fn search_by_line_or_by_text() {
    assert_eq!(find(r"^b$", false, "a\nb\nc"), Ok(None));
    assert_eq!(find(r"^b$", true, "a\nb\nc"), Ok(Some(captured("a\n", "b", &[], "\nc"))));
}

#[test]
fn search_keeps_text_that_is_not_ascii() {
    let found = find(r"(ü+)", false, "grüße üü").unwrap().unwrap();
    assert_eq!(found, captured("gr", "ü", &[Some("ü")], "ße üü"));
    assert_eq!(format!("{}{}{}", found.before, found.whole, found.after), "grüße üü");
}

#[test]
fn search_refuses_a_bad_pattern() {
    assert_eq!(find("(", false, "text"), Err(PatchError::BadAnchor));
    assert_eq!(find(r"\w{1000}{1000}", true, "text"), Err(PatchError::BadAnchor));
}

#[test]
fn groups_are_counted_from_zero() {
    let c = captured("", "ab", &[Some("a"), None], "");
    assert_eq!(group(&c, 0), Some("a"));
    assert_eq!(group(&c, 1), None);
    assert_eq!(group(&c, 2), None);
}

#[test]
fn splice_puts_the_value_behind_the_key() {
    let found = Some(captured("a\n", "[\"base\"] = 12.5,", &[Some("[\"base\"]")], "\nz"));
    assert_eq!(
        splice("unused", &found, Field::CloudBase, "300", false),
        Ok("a\n[\"base\"] = 300,\nz".to_string())
    );
    assert_eq!(
        splice("unused", &found, Field::CloudBase, "", true),
        Ok("a\n[\"base\"] = ,\nz".to_string())
    );
}

#[test]
fn splice_without_match_fails_but_in_a_dry_run() {
    assert_eq!(
        splice("text", &None, Field::Qnh, "1", false),
        Err(PatchError::AnchorNotFound { field: Field::Qnh })
    );
    assert_eq!(splice("text", &None, Field::Qnh, "1", true), Ok("text".to_string()));
}

#[test]
fn splice_without_the_key_group_counts_as_no_match() {
    let no_groups = Some(captured("a", "b", &[], "c"));
    let idle_group = Some(captured("a", "b", &[None], "c"));
    assert_eq!(
        splice("abc", &no_groups, Field::Temperature, "1", false),
        Err(PatchError::AnchorNotFound { field: Field::Temperature })
    );
    assert_eq!(splice("abc", &idle_group, Field::Temperature, "1", true), Ok("abc".to_string()));
}

#[test]
fn anchor_patterns() {
    assert_eq!(INDENT, "(:?    |\\t)");
    assert_eq!(Field::StartTime.pattern(), "^((:?    |\\t)\\[\"start_time\"\\]) = [\\d\\.]+,$");
    assert_eq!(Field::CloudPreset.pattern(), "(\\[\"preset\"\\]) = \".+\",");
    assert_eq!(Field::CloudBase.pattern(), "(\\[\"base\"\\]) = [\\d\\.]+,");
    assert_eq!(Field::Temperature.pattern(), "(\\[\"temperature\"\\]) = [\\d\\.]+,");
    assert_eq!(Field::Qnh.pattern(), "(\\[\"qnh\"\\]) = [\\d\\.]+,");
    assert_eq!(
        Field::GroundWindSpeed.pattern(),
        "(\\s{12}\\[atGround\\] =.+\\s{16}\\[speed]) = \\d+,"
    );
    assert_eq!(
        Field::GroundWindHeading.pattern(),
        "(\\s{12}\\[atGround\\] =.+\\s{16}\\[dir]) = \\d+,"
    );
    assert_eq!(Field::Wind2000Speed.pattern(), "(\\s{12}\\[at2000m\\] =.+\\s{16}\\[speed]) = \\d+,");
    assert_eq!(Field::Wind2000Heading.pattern(), "(\\s{12}\\[at2000m\\] =.+\\s{16}\\[dir]) = \\d+,");
    assert_eq!(Field::Wind8000Speed.pattern(), "(\\s{12}\\[at8000m\\] =.+\\s{16}\\[speed]) = \\d+,");
    assert_eq!(Field::Wind8000Heading.pattern(), "(\\s{12}\\[at8000m\\] =.+\\s{16}\\[dir]) = \\d+,");
    assert!(Field::StartTime.by_line());
    assert!(!Field::CloudBase.by_line());
    assert!(!Field::Wind8000Heading.by_line());
}

#[test]
fn every_anchor_is_a_pattern_that_compiles() {
    let fields = [
        Field::StartTime,
        Field::CloudPreset,
        Field::CloudBase,
        Field::GroundWindSpeed,
        Field::GroundWindHeading,
        Field::Wind2000Speed,
        Field::Wind2000Heading,
        Field::Wind8000Speed,
        Field::Wind8000Heading,
        Field::Temperature,
        Field::Qnh,
    ];
    for field in fields {
        assert_eq!(
            patch_field("", field, "1", false),
            Err(PatchError::AnchorNotFound { field })
        );
        assert_eq!(patch_field("", field, "1", true), Ok(String::new()));
    }
}

#[test]
fn patch_leaves_all_other_text_alone() {
    let mission = "x [\"base\"] = 1, [\"qnh\"] = 760.5, [\"base\"] = 2, y";
    assert_eq!(
        patch_field(mission, Field::Qnh, "755.00", false),
        Ok("x [\"base\"] = 1, [\"qnh\"] = 755.00, [\"base\"] = 2, y".to_string())
    );
    assert_eq!(
        patch_field(mission, Field::CloudBase, "3000", false),
        Ok("x [\"base\"] = 3000, [\"qnh\"] = 760.5, [\"base\"] = 2, y".to_string())
    );
}

#[test]
fn patch_needs_a_value_of_digits_and_a_comma() {
    for mission in ["[\"base\"] = ,", "[\"base\"] = abc,", "[\"base\"] = 12", "[\"base\"]= 12,"] {
        assert_eq!(
            patch_field(mission, Field::CloudBase, "1", false),
            Err(PatchError::AnchorNotFound { field: Field::CloudBase })
        );
    }
}

#[test]
fn required_modules_are_removed() {
    let mission = "    [\"requiredModules\"] = \n    {\n        [\"A-4E-C\"] = \"A-4E-C\",\n        [\"UH-60L\"] = \"UH-60L\",\n    }, -- end of [\"requiredModules\"]\n    [\"date\"] = 1,\n";
    let expected = "    [\"requiredModules\"] = \n    {\n    }, -- end of [\"requiredModules\"]\n    [\"date\"] = 1,\n";
    assert_eq!(remove_required_modules(mission, false), Ok(expected.to_string()));
    assert_eq!(remove_required_modules(mission, true), Ok(expected.to_string()));
}

#[test]
fn mission_without_required_modules_stays() {
    let empty = "    [\"requiredModules\"] = \n    {\n    }, -- end of [\"requiredModules\"]\n";
    assert_eq!(remove_required_modules(empty, false), Ok(empty.to_string()));
    assert_eq!(remove_required_modules("", false), Ok(String::new()));
    assert_eq!(remove_required_modules("dry run", true), Ok("dry run".to_string()));
}

#[test]
fn strip_modules_needs_three_groups() {
    let full = Some(captured("<", "k{x}", &[Some("k"), Some("{"), Some("}")], ">"));
    assert_eq!(strip_modules("<k{x}>", &full), "<k{}>");
    let short = Some(captured("<", "k{x}", &[Some("k"), Some("{")], ">"));
    assert_eq!(strip_modules("<k{x}>", &short), "<k{x}>");
    let idle = Some(captured("<", "k{x}", &[Some("k"), None, Some("}")], ">"));
    assert_eq!(strip_modules("<k{x}>", &idle), "<k{x}>");
    assert_eq!(strip_modules("<k{x}>", &None), "<k{x}>");
}

#[test]
fn file_name_gets_the_suffix_before_its_extension() {
    assert_eq!(splice_filename("mission.miz", "night", false), Ok("mission_night.miz".to_string()));
    assert_eq!(
        splice_filename("dir.v2/my.mission.miz", "dawn", false),
        Ok("dir.v2/my.mission_dawn.miz".to_string())
    );
    assert_eq!(splice_filename("a.b", "", false), Ok("a_.b".to_string()));
}

#[test]
fn file_name_without_extension_is_refused() {
    assert_eq!(splice_filename("mission", "night", false), Err(PatchError::ExtensionMissing));
    assert_eq!(splice_filename(".miz", "night", false), Err(PatchError::ExtensionMissing));
    assert_eq!(splice_filename("mission.", "night", false), Err(PatchError::ExtensionMissing));
    assert_eq!(splice_filename("", "night", false), Err(PatchError::ExtensionMissing));
    assert_eq!(splice_filename("a.b\nc", "night", false), Err(PatchError::ExtensionMissing));
}

#[test]
fn dry_run_keeps_the_file_name() {
    assert_eq!(splice_filename("dry run", "night", true), Ok("dry run".to_string()));
    assert_eq!(splice_filename("mission.miz", "night", true), Ok("mission.miz".to_string()));
}

#[test]
fn add_suffix_needs_two_groups() {
    let found = Some(captured("", "a.b", &[Some("a"), Some("b")], ""));
    assert_eq!(add_suffix(&found, "x"), Ok("a_x.b".to_string()));
    let short = Some(captured("", "a.b", &[Some("a")], ""));
    assert_eq!(add_suffix(&short, "x"), Err(PatchError::ExtensionMissing));
    assert_eq!(add_suffix(&None, "x"), Err(PatchError::ExtensionMissing));
}
