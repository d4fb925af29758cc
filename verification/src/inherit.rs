//! Inheritance between weather profiles, resolved on the configuration as
//! it was read, before anything is bound to a type: only there is a field
//! that a profile leaves out told from one that it sets.

use crate::error::{ConfigError, ConfigFault};
use toml::value::Table;
use toml::Value;
use vstd::prelude::*;

verus! {

/// `toml::Value`, a value of the configuration as it was read: a table, an
/// array, a string or another kind of value. What it holds is known through
/// `table_of`, `array_of` and `string_of` only.
#[verifier::external_type_specification]
#[verifier::external_body]
pub struct ExValue(toml::Value);

/// `toml::map::Map`, the table of the configuration as it was read. What
/// it holds is known through `table_entries` only.
#[verifier::external_type_specification]
#[verifier::external_body]
#[verifier::reject_recursive_types(K)]
#[verifier::reject_recursive_types(V)]
pub struct ExMap<K, V>(toml::map::Map<K, V>);

/// One entry of a table.
pub struct Entry {
    pub key: String,
    pub value: Value,
}

/// The entries of a table, in the order in which it hands them out.
pub uninterp spec fn table_entries(table: Table) -> Seq<(Seq<char>, Value)>;

/// The entries of a value that is a table.
pub uninterp spec fn table_of(value: Value) -> Option<Seq<(Seq<char>, Value)>>;

/// The items of a value that is an array.
pub uninterp spec fn array_of(value: Value) -> Option<Seq<Value>>;

/// The characters of a value that is a string.
pub uninterp spec fn string_of(value: Value) -> Option<Seq<char>>;

/// A list of entries as pairs of a key's characters and a value.
pub open spec fn entry_views(entries: Seq<Entry>) -> Seq<(Seq<char>, Value)> {
    entries.map_values(|e: Entry| (e.key@, e.value))
}

/// The value under each key of a list of entries.
pub open spec fn fields(entries: Seq<(Seq<char>, Value)>) -> Map<Seq<char>, Value>
    decreases entries.len(),
{
    if entries.len() == 0 {
        Map::empty()
    } else {
        fields(entries.skip(1)).insert(entries[0].0, entries[0].1)
    }
}

/// The keys of a list of entries, in its order.
pub open spec fn keys(entries: Seq<(Seq<char>, Value)>) -> Seq<Seq<char>> {
    entries.map_values(|e: (Seq<char>, Value)| e.0)
}

/// The fields of a value that is a table.
pub open spec fn fields_of(value: Value) -> Option<Map<Seq<char>, Value>> {
    match table_of(value) {
        Some(entries) => Some(fields(entries)),
        None => None,
    }
}

/// Calls `toml::Value::as_table`.
///
/// Believed, not proved: a table is handed out with the entries that the
/// value has, and only a value that is a table hands one out.
#[verifier::external_body]
fn as_table(value: &Value) -> (table: Option<&Table>)
    ensures
        match table {
            Some(t) => table_of(*value) == Some(table_entries(*t)),
            None => table_of(*value) is None,
        },
{
    value.as_table()
}

/// Calls `toml::Value::as_array`.
///
/// Believed, not proved: the items are handed out as the value has them,
/// and only a value that is an array hands any out.
#[verifier::external_body]
fn as_array(value: &Value) -> (items: Option<&Vec<Value>>)
    ensures
        match items {
            Some(list) => array_of(*value) == Some(list@),
            None => array_of(*value) is None,
        },
{
    value.as_array()
}

/// Calls `toml::Value::as_str`.
///
/// Believed, not proved: the text is handed out as the value has it, and
/// only a value that is a string hands one out.
#[verifier::external_body]
fn as_str(value: &Value) -> (text: Option<&str>)
    ensures
        match text {
            Some(s) => string_of(*value) == Some(s@),
            None => string_of(*value) is None,
        },
{
    value.as_str()
}

/// Wraps a table into a value, with the variant `toml::Value::Table`.
///
/// Believed, not proved: the value is a table with the entries given.
#[verifier::external_body]
fn value_from_table(table: Table) -> (value: Value)
    ensures
        table_of(value) == Some(table_entries(table)),
{
    Value::Table(table)
}

/// Calls `toml::map::Map::new`.
///
/// Believed, not proved: the table has no entry.
#[verifier::external_body]
fn table_new() -> (table: Table)
    ensures
        table_entries(table) == Seq::<(Seq<char>, Value)>::empty(),
{
    Table::new()
}

/// Calls `toml::map::Map::get`.
///
/// Believed, not proved: the value under `key` is handed out, if the table
/// has the key.
#[verifier::external_body]
fn table_get<'a>(table: &'a Table, key: &str) -> (value: Option<&'a Value>)
    ensures
        match value {
            Some(v) => fields(table_entries(*table)).contains_key(key@) && fields(
                table_entries(*table),
            )[key@] == *v,
            None => !fields(table_entries(*table)).contains_key(key@),
        },
{
    table.get(key)
}

/// Calls `toml::map::Map::insert`.
///
/// Believed, not proved: afterwards the table holds `value` under `key`, and
/// under every other key what it held.
#[verifier::external_body]
fn table_insert(table: &mut Table, key: String, value: Value)
    ensures
        fields(table_entries(*final(table))) == fields(table_entries(*old(table))).insert(key@, value),
{
    table.insert(key, value);
}

/// Walks the table with `toml::map::Map::iter` and clones each entry.
///
/// Believed, not proved: the entries come in the table's order, each with
/// its key and a value equal to the one in the table.
#[verifier::external_body]
fn table_items(table: &Table) -> (items: Vec<Entry>)
    ensures
        entry_views(items@) == table_entries(*table),
{
    table.iter().map(|(key, value)| Entry { key: key.clone(), value: value.clone() }).collect()
}

/// The fields of `over` laid over those of `under`: where both have a key,
/// the value of `over` stands.
pub open spec fn overlaid(under: Map<Seq<char>, Value>, over: Map<Seq<char>, Value>) -> Map<
    Seq<char>,
    Value,
> {
    under.union_prefer_right(over)
}

/// Copies every entry of `source` into `destination`, over what it holds
/// under the same key.
pub fn merge_tables(destination: Table, source: &Table) -> (merged: Table)
    ensures
        fields(table_entries(merged)) == overlaid(
            fields(table_entries(destination)),
            fields(table_entries(*source)),
        ),
{
    let mut merged = destination;
    let mut items = table_items(source);
    let ghost all = entry_views(items@);
    let ghost under = fields(table_entries(destination));
    assert(all.skip(all.len() as int) =~= Seq::<(Seq<char>, Value)>::empty());
    assert(overlaid(under, Map::empty()) =~= under);
    while items.len() > 0
        invariant
            items.len() <= all.len(),
            entry_views(items@) == all.take(items.len() as int),
            fields(table_entries(merged)) == overlaid(under, fields(all.skip(items.len() as int))),
        decreases items.len(),
    {
        let ghost n = items.len() as int;
        let ghost before = items@;
        let entry = items.pop().unwrap();
        proof {
            assert(entry_views(before)[n - 1] == (entry.key@, entry.value));
            assert(all.skip(n - 1).skip(1) =~= all.skip(n));
            assert(entry_views(items@) =~= all.take(n - 1));
            assert(overlaid(under, fields(all.skip(n)).insert(entry.key@, entry.value)) =~= overlaid(
                under,
                fields(all.skip(n)),
            ).insert(entry.key@, entry.value));
        }
        table_insert(&mut merged, entry.key, entry.value);
    }
    assert(all.skip(0) =~= all);
    merged
}

/// The profiles of a weather section: for each name, the fields of its
/// entry, or nothing where the entry is no table.
pub open spec fn profiles_of(section: Map<Seq<char>, Value>) -> Map<
    Seq<char>,
    Option<Map<Seq<char>, Value>>,
> {
    Map::new(|name: Seq<char>| section.contains_key(name), |name: Seq<char>| fields_of(section[name]))
}

/// The names that a profile inherits from: the items of its `inherit`
/// array. Nothing where it has no such key or the value is no array.
pub open spec fn inherit_list(own: Map<Seq<char>, Value>) -> Option<Seq<Value>> {
    if own.contains_key("inherit"@) {
        array_of(own["inherit"@])
    } else {
        None
    }
}

/// The fields that `profile` takes over from the profiles that `list`
/// names, each laid over those of the names before it. An item that is no
/// string is passed over. A name that `profiles` lacks, or whose entry is no
/// table, fails under both names.
pub open spec fn gathered(
    profiles: Map<Seq<char>, Option<Map<Seq<char>, Value>>>,
    profile: Seq<char>,
    list: Seq<Value>,
) -> Result<Map<Seq<char>, Value>, ConfigFault>
    decreases list.len(),
{
    if list.len() == 0 {
        Ok(Map::empty())
    } else {
        match gathered(profiles, profile, list.drop_last()) {
            Err(fault) => Err(fault),
            Ok(under) => match string_of(list.last()) {
                None => Ok(under),
                Some(target) => if !profiles.contains_key(target) {
                    Err(ConfigFault::InheritMissing { profile, target })
                } else {
                    match profiles[target] {
                        None => Err(ConfigFault::InheritNotTable { profile, target }),
                        Some(inherited) => Ok(overlaid(under, inherited)),
                    }
                },
            },
        }
    }
}

/// The fields of the profile `name` once its inheritance is resolved among
/// `profiles`: what it takes over, with its own fields laid over that.
/// Nothing for a profile that inherits nothing: an entry that is no table,
/// or a table without an `inherit` array.
pub open spec fn resolution(
    profiles: Map<Seq<char>, Option<Map<Seq<char>, Value>>>,
    name: Seq<char>,
) -> Result<Option<Map<Seq<char>, Value>>, ConfigFault> {
    if !profiles.contains_key(name) {
        Ok(None)
    } else {
        match profiles[name] {
            None => Ok(None),
            Some(own) => match inherit_list(own) {
                None => Ok(None),
                Some(list) => match gathered(profiles, name, list) {
                    Err(fault) => Err(fault),
                    Ok(under) => Ok(Some(overlaid(under, own))),
                },
            },
        }
    }
}

/// The profiles with the inheritance of `name` resolved.
pub open spec fn step(
    profiles: Map<Seq<char>, Option<Map<Seq<char>, Value>>>,
    name: Seq<char>,
) -> Result<Map<Seq<char>, Option<Map<Seq<char>, Value>>>, ConfigFault> {
    match resolution(profiles, name) {
        Err(fault) => Err(fault),
        Ok(None) => Ok(profiles),
        Ok(Some(resolved)) => Ok(profiles.insert(name, Some(resolved))),
    }
}

/// The profiles with the inheritance of each name of `order` resolved, one
/// after the other: a profile takes over the fields of another as they stand
/// when its turn comes. The first failure ends it.
pub open spec fn resolved(
    profiles: Map<Seq<char>, Option<Map<Seq<char>, Value>>>,
    order: Seq<Seq<char>>,
) -> Result<Map<Seq<char>, Option<Map<Seq<char>, Value>>>, ConfigFault>
    decreases order.len(),
{
    if order.len() == 0 {
        Ok(profiles)
    } else {
        match resolved(profiles, order.drop_last()) {
            Err(fault) => Err(fault),
            Ok(so_far) => step(so_far, order.last()),
        }
    }
}

/// A list fails as a part of it that opens it does.
pub proof fn lemma_gathered_fails(
    profiles: Map<Seq<char>, Option<Map<Seq<char>, Value>>>,
    profile: Seq<char>,
    list: Seq<Value>,
    n: int,
)
    requires
        0 <= n <= list.len(),
        gathered(profiles, profile, list.take(n)) is Err,
    ensures
        gathered(profiles, profile, list) == gathered(profiles, profile, list.take(n)),
    decreases list.len() - n,
{
    if n == list.len() {
        assert(list.take(n) =~= list);
    } else {
        assert(list.take(n + 1).drop_last() =~= list.take(n));
        lemma_gathered_fails(profiles, profile, list, n + 1);
    }
}

/// What resolving one profile returned, as plain data.
pub open spec fn resolution_view(result: Result<Option<Table>, ConfigError>) -> Result<
    Option<Map<Seq<char>, Value>>,
    ConfigFault,
> {
    match result {
        Ok(Some(table)) => Ok(Some(fields(table_entries(table)))),
        Ok(None) => Ok(None),
        Err(e) => Err(e@),
    }
}

/// Resolves the inheritance of the profile `name` of a weather section:
/// its table with the fields it takes over, or nothing where it inherits
/// nothing.
#[verifier::loop_isolation(false)]
pub fn resolve_profile(section: &Table, name: &str) -> (result: Result<Option<Table>, ConfigError>)
    ensures
        resolution_view(result) == resolution(profiles_of(fields(table_entries(*section))), name@),
{
    let ghost profiles = profiles_of(fields(table_entries(*section)));
    let own = match table_get(section, name) {
        Some(value) => match as_table(value) {
            Some(own) => own,
            None => {
                return Ok(None);
            },
        },
        None => {
            return Ok(None);
        },
    };
    let list = match table_get(own, "inherit") {
        Some(value) => match as_array(value) {
            Some(list) => list,
            None => {
                return Ok(None);
            },
        },
        None => {
            return Ok(None);
        },
    };
    let mut under = table_new();
    let mut at: usize = 0;
    while at < list.len()
        invariant
            at <= list.len(),
            profiles == profiles_of(fields(table_entries(*section))),
            gathered(profiles, name@, list@.take(at as int)) == Ok::<
                Map<Seq<char>, Value>,
                ConfigFault,
            >(fields(table_entries(under))),
        decreases list.len() - at,
    {
        proof {
            assert(list@.take(at + 1).drop_last() =~= list@.take(at as int));
        }
        match as_str(&list[at]) {
            None => {},
            Some(target) => {
                let inherited = match table_get(section, target) {
                    None => {
                        proof {
                            lemma_gathered_fails(profiles, name@, list@, at + 1);
                        }
                        return Err(
                            ConfigError::InheritMissing {
                                profile: name.to_owned(),
                                target: target.to_owned(),
                            },
                        );
                    },
                    Some(value) => match as_table(value) {
                        None => {
                            proof {
                                lemma_gathered_fails(profiles, name@, list@, at + 1);
                            }
                            return Err(
                                ConfigError::InheritNotTable {
                                    profile: name.to_owned(),
                                    target: target.to_owned(),
                                },
                            );
                        },
                        Some(inherited) => inherited,
                    },
                };
                under = merge_tables(under, inherited);
            },
        }
        at += 1;
    }
    proof {
        assert(list@.take(at as int) =~= list@);
    }
    Ok(Some(merge_tables(under, own)))
}

/// The entries of the weather section of a configuration: of the table
/// under the key `weather` of a configuration that is a table.
pub open spec fn weather_section(config: Value) -> Option<Seq<(Seq<char>, Value)>> {
    match fields_of(config) {
        None => None,
        Some(root) => if root.contains_key("weather"@) {
            table_of(root["weather"@])
        } else {
            None
        },
    }
}

/// Whether the section `after` holds the profiles as resolved: under each
/// name of `before` a table of the resolved fields, or, for an entry that is
/// no table, the entry as it was.
pub open spec fn section_resolved(
    before: Map<Seq<char>, Value>,
    after: Map<Seq<char>, Value>,
    profiles: Map<Seq<char>, Option<Map<Seq<char>, Value>>>,
) -> bool {
    &&& after.dom() == before.dom()
    &&& profiles.dom() == before.dom()
    &&& forall|name: Seq<char>| #[trigger]
        before.contains_key(name) ==> fields_of(after[name]) == profiles[name] && (profiles[name] is None
            ==> after[name] == before[name])
}

/// Whether `after` is the configuration `before` with its weather section
/// resolved to `profiles`, and all else as it was.
pub open spec fn config_resolved(
    before: Value,
    after: Value,
    section: Seq<(Seq<char>, Value)>,
    profiles: Map<Seq<char>, Option<Map<Seq<char>, Value>>>,
) -> bool {
    &&& fields_of(before) matches Some(root)
    &&& fields_of(after) matches Some(out)
    &&& out.dom() == root.dom()
    &&& forall|key: Seq<char>| #[trigger]
        root.contains_key(key) && key != "weather"@ ==> out[key] == root[key]
    &&& out.contains_key("weather"@)
    &&& fields_of(out["weather"@]) matches Some(resolved_section)
    &&& section_resolved(fields(section), resolved_section, profiles)
}

/// What `preprocess_inheritance` returns for a configuration: the
/// configuration itself where it has no weather section; the first failure
/// of the resolution, taken in the order of the section's entries; else the
/// configuration with the section resolved.
pub open spec fn inheritance_resolved(config: Value, result: Result<Value, ConfigError>) -> bool {
    match weather_section(config) {
        None => result matches Ok(out) && out == config,
        Some(section) => match resolved(profiles_of(fields(section)), keys(section)) {
            Err(fault) => result matches Err(e) && e@ == fault,
            Ok(profiles) => result matches Ok(out) && config_resolved(config, out, section, profiles),
        },
    }
}

/// The order fails as a part of it that opens it does.
pub proof fn lemma_resolved_fails(
    profiles: Map<Seq<char>, Option<Map<Seq<char>, Value>>>,
    order: Seq<Seq<char>>,
    n: int,
)
    requires
        0 <= n <= order.len(),
        resolved(profiles, order.take(n)) is Err,
    ensures
        resolved(profiles, order) == resolved(profiles, order.take(n)),
    decreases order.len() - n,
{
    if n == order.len() {
        assert(order.take(n) =~= order);
    } else {
        assert(order.take(n + 1).drop_last() =~= order.take(n));
        lemma_resolved_fails(profiles, order, n + 1);
    }
}

/// Resolves the inheritance between the weather profiles of a configuration
/// as it was read.
///
/// Each profile with an `inherit` array takes over the fields of the
/// profiles named there, a later name over an earlier one, and its own fields
/// over all of them. The profiles are taken in the order of the section.
#[verifier::loop_isolation(false)]
pub fn preprocess_inheritance(config_data: Value) -> (result: Result<Value, ConfigError>)
    ensures
        inheritance_resolved(config_data, result),
{
    let root = match as_table(&config_data) {
        Some(root) => root,
        None => {
            return Ok(config_data);
        },
    };
    let section = match table_get(root, "weather") {
        Some(value) => match as_table(value) {
            Some(section) => section,
            None => {
                return Ok(config_data);
            },
        },
        None => {
            return Ok(config_data);
        },
    };
    let ghost before = fields(table_entries(*section));
    let ghost start = profiles_of(before);
    let ghost order = keys(table_entries(*section));
    let names = table_items(section);
    let mut current = merge_tables(table_new(), section);
    assert(fields(table_entries(current)) =~= before);
    assert(order.take(0) =~= Seq::<Seq<char>>::empty());
    let mut at: usize = 0;
    while at < names.len()
        invariant
            at <= names.len(),
            names.len() == order.len(),
            forall|k: int| 0 <= k < names.len() ==> #[trigger] names[k].key@ == order[k],
            start == profiles_of(before),
            fields(table_entries(current)).dom() == before.dom(),
            forall|name: Seq<char>| #[trigger]
                before.contains_key(name) ==> fields(table_entries(current))[name] == before[name]
                    || fields_of(fields(table_entries(current))[name]) is Some,
            resolved(start, order.take(at as int)) == Ok::<
                Map<Seq<char>, Option<Map<Seq<char>, Value>>>,
                ConfigFault,
            >(profiles_of(fields(table_entries(current)))),
        decreases names.len() - at,
    {
        let name = &names[at].key;
        let ghost so_far = fields(table_entries(current));
        proof {
            assert(order.take(at + 1).drop_last() =~= order.take(at as int));
            assert(order.take(at + 1).last() == name@);
        }
        match resolve_profile(&current, name.as_str()) {
            Err(e) => {
                proof {
                    lemma_resolved_fails(start, order, at + 1);
                }
                return Err(e);
            },
            Ok(None) => {},
            Ok(Some(table)) => {
                let ghost resolved_fields = fields(table_entries(table));
                let value = value_from_table(table);
                table_insert(&mut current, name.clone(), value);
                proof {
                    assert(so_far.contains_key(name@));
                    assert(fields(table_entries(current)).dom() =~= before.dom());
                    assert(profiles_of(fields(table_entries(current))) =~= profiles_of(so_far).insert(
                        name@,
                        Some(resolved_fields),
                    ));
                }
            },
        }
        at += 1;
    }
    proof {
        assert(order.take(at as int) =~= order);
    }
    let ghost after = fields(table_entries(current));
    let resolved_section = value_from_table(current);
    let mut out = merge_tables(table_new(), root);
    assert(fields(table_entries(out)) =~= fields(table_entries(*root)));
    table_insert(&mut out, "weather".to_owned(), resolved_section);
    let ghost out_fields = fields(table_entries(out));
    let result = value_from_table(out);
    proof {
        let root_fields = fields(table_entries(*root));
        assert(out_fields.dom() =~= root_fields.dom());
        assert(profiles_of(after).dom() =~= before.dom());
        assert(section_resolved(before, after, profiles_of(after)));
        assert(config_resolved(config_data, result, table_entries(*section), profiles_of(after)));
    }
    Ok(result)
}

/// A profile that inherits from one other takes over each field that it
/// does not set itself, and keeps each that it sets.
pub proof fn lemma_inherits_from_one(
    profiles: Map<Seq<char>, Option<Map<Seq<char>, Value>>>,
    name: Seq<char>,
    own: Map<Seq<char>, Value>,
    item: Value,
    parent_name: Seq<char>,
    parent: Map<Seq<char>, Value>,
    key: Seq<char>,
)
    requires
        profiles.contains_key(name),
        profiles[name] == Some(own),
        inherit_list(own) == Some(seq![item]),
        string_of(item) == Some(parent_name),
        profiles.contains_key(parent_name),
        profiles[parent_name] == Some(parent),
    ensures
        resolution(profiles, name) matches Ok(Some(resolved)) && (own.contains_key(key)
            ==> resolved.contains_key(key) && resolved[key] == own[key]) && (!own.contains_key(key)
            && parent.contains_key(key) ==> resolved.contains_key(key) && resolved[key]
            == parent[key]) && (resolved.contains_key(key) ==> own.contains_key(key)
            || parent.contains_key(key)),
{
    let list = seq![item];
    assert(list.drop_last() =~= Seq::<Value>::empty());
    assert(gathered(profiles, name, list.drop_last()) == Ok::<Map<Seq<char>, Value>, ConfigFault>(
        Map::empty(),
    ));
    assert(gathered(profiles, name, list) == Ok::<Map<Seq<char>, Value>, ConfigFault>(
        overlaid(Map::empty(), parent),
    ));
}

/// Of the profiles that one inherits from, a later one stands over an
/// earlier one, and the profile's own fields over both.
pub proof fn lemma_later_name_wins(
    profiles: Map<Seq<char>, Option<Map<Seq<char>, Value>>>,
    name: Seq<char>,
    list: Seq<Value>,
    under: Map<Seq<char>, Value>,
    last_name: Seq<char>,
    last: Map<Seq<char>, Value>,
    key: Seq<char>,
)
    requires
        list.len() > 0,
        gathered(profiles, name, list.drop_last()) == Ok::<Map<Seq<char>, Value>, ConfigFault>(under),
        string_of(list.last()) == Some(last_name),
        profiles.contains_key(last_name),
        profiles[last_name] == Some(last),
    ensures
        gathered(profiles, name, list) matches Ok(all) && (last.contains_key(key) ==> all[key]
            == last[key]) && (!last.contains_key(key) && under.contains_key(key) ==> all[key]
            == under[key]),
{
}

/// A profile that inherits nothing comes out of the resolution as it went
/// in.
pub proof fn lemma_plain_profile_stays(
    profiles: Map<Seq<char>, Option<Map<Seq<char>, Value>>>,
    order: Seq<Seq<char>>,
    name: Seq<char>,
)
    requires
        profiles.contains_key(name),
        profiles[name] matches Some(own) ==> inherit_list(own) is None,
        resolved(profiles, order) is Ok,
    ensures
        resolved(profiles, order) matches Ok(after) && after.contains_key(name) && after[name]
            == profiles[name],
    decreases order.len(),
{
    if order.len() > 0 {
        lemma_plain_profile_stays(profiles, order.drop_last(), name);
    }
}

/// A profile whose turn does not come stays as it is.
pub proof fn lemma_unlisted_profile_stays(
    profiles: Map<Seq<char>, Option<Map<Seq<char>, Value>>>,
    order: Seq<Seq<char>>,
    name: Seq<char>,
)
    requires
        profiles.contains_key(name),
        forall|j: int| 0 <= j < order.len() ==> order[j] != name,
        resolved(profiles, order) is Ok,
    ensures
        resolved(profiles, order) matches Ok(after) && after.contains_key(name) && after[name]
            == profiles[name],
    decreases order.len(),
{
    if order.len() > 0 {
        lemma_unlisted_profile_stays(profiles, order.drop_last(), name);
    }
}

/// Resolving an order is resolving a part that opens it, and then the rest
/// on what came of that.
pub proof fn lemma_resolved_in_two(
    profiles: Map<Seq<char>, Option<Map<Seq<char>, Value>>>,
    order: Seq<Seq<char>>,
    n: int,
)
    requires
        0 <= n <= order.len(),
    ensures
        resolved(profiles, order) == match resolved(profiles, order.take(n)) {
            Ok(so_far) => resolved(so_far, order.skip(n)),
            Err(fault) => Err(fault),
        },
    decreases order.len(),
{
    if n == order.len() {
        assert(order.take(n) =~= order);
        assert(order.skip(n) =~= Seq::<Seq<char>>::empty());
    } else {
        let shorter = order.drop_last();
        lemma_resolved_in_two(profiles, shorter, n);
        assert(shorter.take(n) =~= order.take(n));
        assert(order.skip(n).drop_last() =~= shorter.skip(n));
        assert(order.skip(n).last() == order.last());
    }
}

/// After the resolution of a whole section, a profile that inherits from
/// one other, which itself inherits nothing, has each field that the other
/// has and it does not set itself, and keeps each that it sets.
pub proof fn lemma_resolved_inherits(
    profiles: Map<Seq<char>, Option<Map<Seq<char>, Value>>>,
    order: Seq<Seq<char>>,
    at: int,
    own: Map<Seq<char>, Value>,
    item: Value,
    parent_name: Seq<char>,
    parent: Map<Seq<char>, Value>,
    key: Seq<char>,
)
    requires
        0 <= at < order.len(),
        forall|j: int| 0 <= j < order.len() && j != at ==> order[j] != order[at],
        profiles.contains_key(order[at]),
        profiles[order[at]] == Some(own),
        inherit_list(own) == Some(seq![item]),
        string_of(item) == Some(parent_name),
        profiles.contains_key(parent_name),
        profiles[parent_name] == Some(parent),
        inherit_list(parent) is None,
        resolved(profiles, order) is Ok,
    ensures
        resolved(profiles, order) matches Ok(after) && after.contains_key(order[at]) && ({
            &&& after[order[at]] matches Some(fields)
            &&& own.contains_key(key) ==> fields.contains_key(key) && fields[key] == own[key]
            &&& !own.contains_key(key) && parent.contains_key(key) ==> fields.contains_key(key)
                && fields[key] == parent[key]
        }),
{
    let name = order[at];
    let before = order.take(at);
    let upto = order.take(at + 1);
    let rest = order.skip(at + 1);
    lemma_resolved_in_two(profiles, order, at + 1);
    assert(upto.drop_last() =~= before);
    assert(upto.last() == name);
    let so_far = resolved(profiles, before)->Ok_0;
    assert forall|j: int| 0 <= j < before.len() implies before[j] != name by {
        assert(before[j] == order[j]);
    }
    lemma_unlisted_profile_stays(profiles, before, name);
    lemma_plain_profile_stays(profiles, before, parent_name);
    lemma_inherits_from_one(so_far, name, own, item, parent_name, parent, key);
    let turned = resolved(profiles, upto)->Ok_0;
    assert(turned == so_far.insert(name, resolution(so_far, name)->Ok_0));
    assert forall|j: int| 0 <= j < rest.len() implies rest[j] != name by {
        assert(rest[j] == order[at + 1 + j]);
    }
    lemma_unlisted_profile_stays(turned, rest, name);
}

/// A profile that names one to inherit from which the section lacks fails
/// the resolution, under its own name and the missing one.
pub proof fn lemma_missing_profile_fails(
    profiles: Map<Seq<char>, Option<Map<Seq<char>, Value>>>,
    name: Seq<char>,
    own: Map<Seq<char>, Value>,
    list: Seq<Value>,
    n: int,
    target: Seq<char>,
)
    requires
        profiles.contains_key(name),
        profiles[name] == Some(own),
        inherit_list(own) == Some(list),
        0 <= n < list.len(),
        gathered(profiles, name, list.take(n)) is Ok,
        string_of(list[n]) == Some(target),
        !profiles.contains_key(target),
    ensures
        resolution(profiles, name) == Err::<Option<Map<Seq<char>, Value>>, ConfigFault>(
            ConfigFault::InheritMissing { profile: name, target },
        ),
        step(profiles, name) is Err,
{
    assert(list.take(n + 1).drop_last() =~= list.take(n));
    assert(list.take(n + 1).last() == list[n]);
    lemma_gathered_fails(profiles, name, list, n + 1);
}

/// The resolution of a whole section fails at the first profile that names
/// one to inherit from which the section lacks, under both names.
pub proof fn lemma_resolved_fails_on_missing(
    profiles: Map<Seq<char>, Option<Map<Seq<char>, Value>>>,
    order: Seq<Seq<char>>,
    at: int,
    own: Map<Seq<char>, Value>,
    list: Seq<Value>,
    n: int,
    target: Seq<char>,
)
    requires
        0 <= at < order.len(),
        resolved(profiles, order.take(at)) matches Ok(so_far) && so_far.contains_key(order[at])
            && so_far[order[at]] == Some(own) && gathered(so_far, order[at], list.take(n)) is Ok
            && !so_far.contains_key(target),
        inherit_list(own) == Some(list),
        0 <= n < list.len(),
        string_of(list[n]) == Some(target),
    ensures
        resolved(profiles, order) == Err::<
            Map<Seq<char>, Option<Map<Seq<char>, Value>>>,
            ConfigFault,
        >(ConfigFault::InheritMissing { profile: order[at], target }),
{
    let so_far = resolved(profiles, order.take(at))->Ok_0;
    lemma_missing_profile_fails(so_far, order[at], own, list, n, target);
    assert(order.take(at + 1).drop_last() =~= order.take(at));
    assert(order.take(at + 1).last() == order[at]);
    lemma_resolved_fails(profiles, order, at + 1);
}

} // verus!
