//! Operations on the mission document and on file names that belong to no
//! one field.

use crate::anchor::{
    find, first_match, found_of, group, group_of, pattern_compiles, text_of, Captured, Found,
};
use crate::error::PatchError;
use vstd::prelude::*;
use vstd::string::*;

verus! {

/// The indentation of a key of the mission's top-level table.
pub const INDENT: &'static str = r#"(:?    |\t)"#;

/// The pattern of the table of required modules: its key, its opening
/// bracket, its lines, its closing bracket. The lines are in no group.
pub open spec fn required_modules_pattern() -> Seq<char> {
    r#"(\["requiredModules"\] = \n)"#@ + r#"(\s+\{\n)"#@ + r#"(?:.+\n)+"#@
        + r#"(\s+\}, -- end of \["requiredModules"\]\n)"#@
}

/// The pattern of a file name with an extension: all before the last dot,
/// and all after it.
pub open spec fn file_name_pattern() -> Seq<char> {
    r#"^(.+)\.(.+)$"#@
}

/// Whether a match has its first `count` groups.
pub open spec fn has_groups(found: Found, count: int) -> bool {
    forall|k: int| 0 <= k < count ==> (#[trigger] group_of(found, k)) is Some
}

/// The mission without the lines of its table of required modules, given
/// what the search for the table found: key and brackets stay. A mission
/// without such a table stays as it is.
pub open spec fn modules_removed(mission: Seq<char>, found: Option<Found>) -> Seq<char> {
    match found {
        Some(f) => if has_groups(f, 3) {
            f.before + group_of(f, 0).unwrap() + group_of(f, 1).unwrap() + group_of(f, 2).unwrap()
                + f.after
        } else {
            mission
        },
        None => mission,
    }
}

/// The file name with `_` and the suffix put before its extension, given
/// what the search for the extension found.
pub open spec fn suffixed(found: Option<Found>, suffix: Seq<char>) -> Result<Seq<char>, PatchError> {
    match found {
        Some(f) => if has_groups(f, 2) {
            Ok(
                f.before + group_of(f, 0).unwrap() + "_"@ + suffix + "."@ + group_of(f, 1).unwrap()
                    + f.after,
            )
        } else {
            Err(PatchError::ExtensionMissing)
        },
        None => Err(PatchError::ExtensionMissing),
    }
}

/// Empties the table of required modules that a search found.
pub fn strip_modules(mission: &str, found: &Option<Captured>) -> (out: String)
    ensures
        out@ == modules_removed(mission@, found_of(*found)),
{
    let parts = match found {
        Some(captured) => match (group(captured, 0), group(captured, 1), group(captured, 2)) {
            (Some(key), Some(open), Some(close)) => Some((captured, key, open, close)),
            _ => None,
        },
        None => None,
    };
    match parts {
        Some((captured, key, open, close)) => {
            let mut out = String::from_str(captured.before.as_str());
            out.append(key);
            out.append(open);
            out.append(close);
            out.append(captured.after.as_str());
            out
        },
        None => {
            proof {
                if let Some(f) = found_of(*found) {
                    assert(!has_groups(f, 3));
                }
            }
            String::from_str(mission)
        },
    }
}

/// Empties the mission's table of required modules, so that the mission
/// asks for none. A dry run does the same.
pub fn remove_required_modules(mission: &str, dry_run: bool) -> (result: Result<String, PatchError>)
    ensures
        text_of(result) == if pattern_compiles(required_modules_pattern(), true) {
            Ok::<Seq<char>, PatchError>(
                modules_removed(mission@, first_match(required_modules_pattern(), true, mission@)),
            )
        } else {
            Err::<Seq<char>, PatchError>(PatchError::BadAnchor)
        },
{
    let mut pattern = String::from_str(r#"(\["requiredModules"\] = \n)"#);
    pattern.append(r#"(\s+\{\n)"#);
    pattern.append(r#"(?:.+\n)+"#);
    pattern.append(r#"(\s+\}, -- end of \["requiredModules"\]\n)"#);
    match find(pattern.as_str(), true, mission) {
        Ok(found) => Ok(strip_modules(mission, &found)),
        Err(e) => Err(e),
    }
}

/// Puts a suffix before the extension that a search found in a file name.
pub fn add_suffix(
    found: &Option<Captured>,
    new_suffix: &str,
) -> (result: Result<String, PatchError>)
    ensures
        text_of(result) == suffixed(found_of(*found), new_suffix@),
{
    let parts = match found {
        Some(captured) => match (group(captured, 0), group(captured, 1)) {
            (Some(stem), Some(extension)) => Some((captured, stem, extension)),
            _ => None,
        },
        None => None,
    };
    match parts {
        Some((captured, stem, extension)) => {
            let mut out = String::from_str(captured.before.as_str());
            out.append(stem);
            out.append("_");
            out.append(new_suffix);
            out.append(".");
            out.append(extension);
            out.append(captured.after.as_str());
            Ok(out)
        },
        None => {
            proof {
                if let Some(f) = found_of(*found) {
                    assert(!has_groups(f, 2));
                }
            }
            Err(PatchError::ExtensionMissing)
        },
    }
}

/// The name of the file that a preset's mission is written to: the name of
/// the mission file with `_` and the preset's name before its extension. A
/// dry run, which writes nothing, keeps the name.
pub fn splice_filename(
    path: &str,
    new_suffix: &str,
    dry_run: bool,
) -> (result: Result<String, PatchError>)
    ensures
        text_of(result) == if dry_run {
            Ok::<Seq<char>, PatchError>(path@)
        } else if pattern_compiles(file_name_pattern(), false) {
            suffixed(first_match(file_name_pattern(), false, path@), new_suffix@)
        } else {
            Err::<Seq<char>, PatchError>(PatchError::BadAnchor)
        },
{
    if dry_run {
        return Ok(String::from_str(path));
    }
    match find(r#"^(.+)\.(.+)$"#, false, path) {
        Ok(found) => add_suffix(&found, new_suffix),
        Err(e) => Err(e),
    }
}

} // verus!
