//! Searching a document for an anchor pattern.

use crate::error::{Field, PatchError};
use crate::misc::INDENT;
use regex::RegexBuilder;
use vstd::prelude::*;
use vstd::string::*;

verus! {

/// `regex::Error`, the reason why a pattern was refused. It is passed on
/// unread.
#[verifier::external_type_specification]
#[verifier::external_body]
pub struct ExPatternError(regex::Error);

/// The first match of a pattern in a text, cut out of it.
#[derive(Debug, PartialEq, Eq)]
pub struct Captured {
    /// The text before the match.
    pub before: String,
    /// The matched text.
    pub whole: String,
    /// The text of each capture group, in the order of their opening
    /// brackets; `None` for a group that took no part in the match.
    pub groups: Vec<Option<String>>,
    /// The text after the match.
    pub after: String,
}

/// A match as plain sequences of characters.
pub struct Found {
    pub before: Seq<char>,
    pub whole: Seq<char>,
    pub groups: Seq<Option<Seq<char>>>,
    pub after: Seq<char>,
}

/// The characters of an optional string.
pub open spec fn group_text(group: Option<String>) -> Option<Seq<char>> {
    match group {
        Some(s) => Some(s@),
        None => None,
    }
}

impl View for Captured {
    type V = Found;

    open spec fn view(&self) -> Found {
        Found {
            before: self.before@,
            whole: self.whole@,
            groups: self.groups@.map_values(|g: Option<String>| group_text(g)),
            after: self.after@,
        }
    }
}

/// The view of an optional match.
pub open spec fn found_of(captured: Option<Captured>) -> Option<Found> {
    match captured {
        Some(c) => Some(c@),
        None => None,
    }
}

/// Whether the pattern engine accepts `pattern`.
pub uninterp spec fn pattern_compiles(pattern: Seq<char>, multi_line: bool) -> bool;

/// The leftmost match of `pattern` in `text`, as the pattern engine finds it.
pub uninterp spec fn first_match(pattern: Seq<char>, multi_line: bool, text: Seq<char>) -> Option<Found>;

/// Compiles `pattern` with `regex::RegexBuilder` (`multi_line` set as given)
/// and runs `regex::Regex::captures` on `text`.
///
/// Believed, not proved: the pattern is refused exactly when it does not
/// compile; the result is the named first match; and the pieces before, of
/// and after a match make up the text.
#[verifier::external_body]
fn search(
    pattern: &str,
    multi_line: bool,
    text: &str,
) -> (result: Result<Option<Captured>, regex::Error>)
    ensures
        result is Ok <==> pattern_compiles(pattern@, multi_line),
        result matches Ok(found) ==> found_of(found) == first_match(pattern@, multi_line, text@),
        result matches Ok(Some(c)) ==> c@.before + c@.whole + c@.after == text@,
{
    let re = RegexBuilder::new(pattern).multi_line(multi_line).build()?;
    let caps = match re.captures(text) {
        Some(caps) => caps,
        None => return Ok(None),
    };
    let groups = caps.iter().skip(1).map(|g| g.map(|m| m.as_str().to_owned())).collect();
    let whole = caps.get(0).unwrap();
    Ok(Some(Captured {
        before: text[..whole.start()].to_owned(),
        whole: whole.as_str().to_owned(),
        groups,
        after: text[whole.end()..].to_owned(),
    }))
}

/// Finds the first match of `pattern` in `text`. A pattern that the engine
/// refuses is a `BadAnchor`.
pub fn find(
    pattern: &str,
    multi_line: bool,
    text: &str,
) -> (result: Result<Option<Captured>, PatchError>)
    ensures
        result is Ok <==> pattern_compiles(pattern@, multi_line),
        result matches Err(e) ==> e == PatchError::BadAnchor,
        result matches Ok(found) ==> found_of(found) == first_match(pattern@, multi_line, text@),
        result matches Ok(Some(c)) ==> c@.before + c@.whole + c@.after == text@,
{
    match search(pattern, multi_line, text) {
        Ok(found) => Ok(found),
        Err(_) => Err(PatchError::BadAnchor),
    }
}

/// The pattern of the wind anchor for an altitude tag and an attribute: the
/// attribute's key, found in the block that the altitude's key opens.
pub open spec fn wind_pattern(altitude: Seq<char>, attribute: Seq<char>) -> Seq<char> {
    r#"(\s{12}\["#@ + altitude + r#"\] =.+"#@ + r#"\s{16}\["#@ + attribute + r#"]) = \d+,"#@
}

/// The pattern that locates a field in the mission document. Its first
/// capture group holds the key, and all that has to precede it; the value
/// follows the group.
pub open spec fn anchor_pattern(field: Field) -> Seq<char> {
    match field {
        Field::StartTime => "^("@ + INDENT@ + r#"\["start_time"\]) = [\d\.]+,$"#@,
        Field::CloudPreset => r#"(\["preset"\]) = ".+","#@,
        Field::CloudBase => r#"(\["base"\]) = [\d\.]+,"#@,
        Field::GroundWindSpeed => wind_pattern("atGround"@, "speed"@),
        Field::GroundWindHeading => wind_pattern("atGround"@, "dir"@),
        Field::Wind2000Speed => wind_pattern("at2000m"@, "speed"@),
        Field::Wind2000Heading => wind_pattern("at2000m"@, "dir"@),
        Field::Wind8000Speed => wind_pattern("at8000m"@, "speed"@),
        Field::Wind8000Heading => wind_pattern("at8000m"@, "dir"@),
        Field::Temperature => r#"(\["temperature"\]) = [\d\.]+,"#@,
        Field::Qnh => r#"(\["qnh"\]) = [\d\.]+,"#@,
    }
}

/// Whether the anchor of a field is matched line by line. Only the start
/// time is: the same key occurs elsewhere, further indented.
pub open spec fn anchor_by_line(field: Field) -> bool {
    field == Field::StartTime
}

/// Builds the pattern of a wind anchor.
fn build_wind_pattern(altitude: &str, attribute: &str) -> (pattern: String)
    ensures
        pattern@ == wind_pattern(altitude@, attribute@),
{
    let mut pattern = String::from_str(r#"(\s{12}\["#);
    pattern.append(altitude);
    pattern.append(r#"\] =.+"#);
    pattern.append(r#"\s{16}\["#);
    pattern.append(attribute);
    pattern.append(r#"]) = \d+,"#);
    pattern
}

impl Field {
    /// The pattern that locates the field.
    pub fn pattern(&self) -> (pattern: String)
        ensures
            pattern@ == anchor_pattern(*self),
    {
        match self {
            Field::StartTime => {
                let mut pattern = String::from_str("^(");
                pattern.append(INDENT);
                pattern.append(r#"\["start_time"\]) = [\d\.]+,$"#);
                pattern
            },
            Field::CloudPreset => String::from_str(r#"(\["preset"\]) = ".+","#),
            Field::CloudBase => String::from_str(r#"(\["base"\]) = [\d\.]+,"#),
            Field::GroundWindSpeed => build_wind_pattern("atGround", "speed"),
            Field::GroundWindHeading => build_wind_pattern("atGround", "dir"),
            Field::Wind2000Speed => build_wind_pattern("at2000m", "speed"),
            Field::Wind2000Heading => build_wind_pattern("at2000m", "dir"),
            Field::Wind8000Speed => build_wind_pattern("at8000m", "speed"),
            Field::Wind8000Heading => build_wind_pattern("at8000m", "dir"),
            Field::Temperature => String::from_str(r#"(\["temperature"\]) = [\d\.]+,"#),
            Field::Qnh => String::from_str(r#"(\["qnh"\]) = [\d\.]+,"#),
        }
    }

    /// Whether the field's anchor is matched line by line.
    pub fn by_line(&self) -> (by_line: bool)
        ensures
            by_line == anchor_by_line(*self),
    {
        match self {
            Field::StartTime => true,
            _ => false,
        }
    }
}

/// The text of a capture group of a match, if the pattern has that group
/// and it took part.
pub open spec fn group_of(found: Found, index: int) -> Option<Seq<char>> {
    if 0 <= index < found.groups.len() {
        found.groups[index]
    } else {
        None
    }
}

/// Whether a search located a field: there is a match, and its first group
/// holds the key.
pub open spec fn located(found: Option<Found>) -> bool {
    found matches Some(f) && group_of(f, 0) is Some
}

/// The text around a located field with a new value put in: all before the
/// match, the key, ` = `, the value, a comma, all after the match.
pub open spec fn rewritten(found: Found, value: Seq<char>) -> Seq<char> {
    found.before + group_of(found, 0).unwrap() + " = "@ + value + ","@ + found.after
}

/// What patching a field gives, from what the search for its anchor found.
/// A located field gets the value. A field not located is a failure, but in
/// a dry run, which leaves the text as it is.
pub open spec fn patched(
    text: Seq<char>,
    found: Option<Found>,
    field: Field,
    value: Seq<char>,
    dry_run: bool,
) -> Result<Seq<char>, PatchError> {
    if located(found) {
        Ok(rewritten(found.unwrap(), value))
    } else if dry_run {
        Ok(text)
    } else {
        Err(PatchError::AnchorNotFound { field })
    }
}

/// What patching a field of `text` gives: a `BadAnchor` where the engine
/// refuses the field's pattern, else what follows from the first match.
pub open spec fn field_patched(text: Seq<char>, field: Field, value: Seq<char>, dry_run: bool) -> Result<
    Seq<char>,
    PatchError,
> {
    if pattern_compiles(anchor_pattern(field), anchor_by_line(field)) {
        patched(
            text,
            first_match(anchor_pattern(field), anchor_by_line(field), text),
            field,
            value,
            dry_run,
        )
    } else {
        Err(PatchError::BadAnchor)
    }
}

/// Whether `out` has around the match what `text` has around it: where a
/// field was located, both open with what stands before the match and close
/// with what stands after it; else they are the same text.
pub open spec fn kept_around(text: Seq<char>, out: Seq<char>, found: Option<Found>) -> bool {
    if located(found) {
        let f = found.unwrap();
        &&& f.before.len() + f.after.len() <= text.len()
        &&& f.before.is_prefix_of(text)
        &&& f.before.is_prefix_of(out)
        &&& f.after.is_suffix_of(text)
        &&& f.after.is_suffix_of(out)
    } else {
        out == text
    }
}

/// The characters of a text that an operation returns.
pub open spec fn text_of(result: Result<String, PatchError>) -> Result<Seq<char>, PatchError> {
    match result {
        Ok(s) => Ok(s@),
        Err(e) => Err(e),
    }
}

/// The text of a capture group.
pub fn group<'a>(captured: &'a Captured, index: usize) -> (text: Option<&'a str>)
    ensures
        match text {
            Some(s) => group_of(captured@, index as int) == Some(s@),
            None => group_of(captured@, index as int) is None,
        },
{
    if index < captured.groups.len() {
        match &captured.groups[index] {
            Some(s) => Some(s.as_str()),
            None => None,
        }
    } else {
        None
    }
}

/// Puts `value` into the field that a search located, or reports that the
/// search located none.
pub fn splice(
    text: &str,
    found: &Option<Captured>,
    field: Field,
    value: &str,
    dry_run: bool,
) -> (result: Result<String, PatchError>)
    ensures
        text_of(result) == patched(text@, found_of(*found), field, value@, dry_run),
{
    let head = match found {
        Some(captured) => match group(captured, 0) {
            Some(head) => Some((captured, head)),
            None => None,
        },
        None => None,
    };
    match head {
        Some((captured, head)) => {
            let mut out = String::from_str(captured.before.as_str());
            out.append(head);
            out.append(" = ");
            out.append(value);
            out.append(",");
            out.append(captured.after.as_str());
            Ok(out)
        },
        None => if dry_run {
            Ok(String::from_str(text))
        } else {
            Err(PatchError::AnchorNotFound { field })
        },
    }
}

/// Replaces the value of one field of the mission document.
///
/// The field is located by its anchor; the text before the key and after
/// the old value stays as it was. Where the document has no such anchor,
/// this fails, but in a dry run, which returns the document unchanged.
pub fn patch_field(
    text: &str,
    field: Field,
    value: &str,
    dry_run: bool,
) -> (result: Result<String, PatchError>)
    ensures
        text_of(result) == field_patched(text@, field, value@, dry_run),
        result matches Ok(out) ==> kept_around(
            text@,
            out@,
            first_match(anchor_pattern(field), anchor_by_line(field), text@),
        ),
{
    let pattern = field.pattern();
    match find(pattern.as_str(), field.by_line(), text) {
        Ok(found) => {
            proof {
                if located(found_of(found)) {
                    lemma_patch_keeps_surroundings(
                        text@,
                        found_of(found).unwrap(),
                        field,
                        value@,
                        dry_run,
                    );
                }
            }
            splice(text, &found, field, value, dry_run)
        },
        Err(e) => Err(e),
    }
}

/// Patching leaves the text around a located field alone: what stood
/// before the match opens the new text and what stood after it closes the
/// new text, as they did the old.
pub proof fn lemma_patch_keeps_surroundings(
    text: Seq<char>,
    found: Found,
    field: Field,
    value: Seq<char>,
    dry_run: bool,
)
    requires
        located(Some(found)),
        found.before + found.whole + found.after == text,
    ensures
        patched(text, Some(found), field, value, dry_run) matches Ok(out) && found.before.is_prefix_of(
            out,
        ) && found.after.is_suffix_of(out),
        found.before.is_prefix_of(text),
        found.after.is_suffix_of(text),
        found.before.len() + found.after.len() <= text.len(),
{
    let out = rewritten(found, value);
    let middle = group_of(found, 0).unwrap() + " = "@ + value + ","@;
    assert(out =~= found.before + middle + found.after);
    assert(out.subrange(0, found.before.len() as int) =~= found.before);
    assert(out.subrange(out.len() - found.after.len(), out.len() as int) =~= found.after);
    assert(text.subrange(0, found.before.len() as int) =~= found.before);
    assert(text.subrange(text.len() - found.after.len(), text.len() as int) =~= found.after);
}

/// A field that the document lacks fails the patch, whatever the value; in
/// a dry run the document comes back unchanged instead.
pub proof fn lemma_patch_needs_anchor(text: Seq<char>, field: Field, value: Seq<char>)
    ensures
        patched(text, None, field, value, false) == Err::<Seq<char>, PatchError>(
            PatchError::AnchorNotFound { field },
        ),
        patched(text, None, field, value, true) == Ok::<Seq<char>, PatchError>(text),
{
}

} // verus!
