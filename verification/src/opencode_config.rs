//! The configuration file of OpenCode: where it lies, and its sections of providers and MCP
//! servers.

use indexmap::IndexMap;
use serde_json::Value;
use std::path::PathBuf;
use vstd::prelude::*;
use vstd::utf8::encode_utf8;

use crate::error::AppError;
use crate::json::{
    clone_members, from_str, insert_member, is_null, json, json_error_text, json_members, member,
    member_mut, members_mut, members_of, no_members, object_from, read_str, remove_member,
    set_member, text_from, Json, Reading,
};

verus! {

/// The package that speaks to a provider that names none.
pub const OPENCODE_DEFAULT_NPM: &'static str = "@ai-sdk/openai-compatible";

#[verifier::external_type_specification]
#[verifier::external_body]
pub struct ExPathBuf(PathBuf);

#[verifier::external_type_specification]
#[verifier::external_body]
#[verifier::reject_recursive_types(K)]
#[verifier::reject_recursive_types(V)]
#[verifier::reject_recursive_types(S)]
pub struct ExIndexMap<K, V, S>(IndexMap<K, V, S>);

/// The text of a path, as its encoded bytes.
pub uninterp spec fn path_text(path: PathBuf) -> Seq<u8>;

/// The text of the path that comes of joining a name to the path with that text.
pub uninterp spec fn joined_text(base: Seq<u8>, name: Seq<char>) -> Seq<u8>;

/// The keys and values that an `IndexMap` holds, in order.
pub uninterp spec fn index_entries(map: IndexMap<String, usize>) -> Seq<(Seq<char>, usize)>;

/// `Path::join`. How the two are put together, and what becomes of the base where the name is a path
/// of its own, depends on the rules for paths of the system that the crate is built for.
#[verifier::external_body]
fn join(base: &PathBuf, name: &str) -> (path: PathBuf)
    ensures
        path_text(path) == joined_text(path_text(*base), name@),
{
    base.join(name)
}

/// `PathBuf::from` a text: the path with that text.
#[verifier::external_body]
fn relative(name: &str) -> (path: PathBuf)
    ensures
        path_text(path) == encode_utf8(name@),
{
    PathBuf::from(name)
}

/// `dirs::home_dir`: the home directory of the user, where the system knows one.
#[verifier::external_body]
pub(crate) fn home_dir() -> (home: Option<PathBuf>) {
    dirs::home_dir()
}

/// Asking the system for the home directory of the user may give `home`.
pub closed spec fn reports_home(home: Option<PathBuf>) -> bool {
    home_dir.ensures((), home)
}

/// Asks `question`, and gives the answer.
fn ask<Q: Fn() -> Option<PathBuf>>(question: Q) -> (answer: Option<PathBuf>)
    requires
        question.requires(()),
    ensures
        question.ensures((), answer),
{
    question()
}

/// What the system reports as the home directory is what `home_dir` gives, and nothing else.
pub(crate) proof fn lemma_reports_home(home: Option<PathBuf>)
    ensures
        reports_home(home) <==> home_dir.ensures((), home),
{
}

/// The text of the default configuration directory: below the home directory with that text, or
/// below the current directory.
pub open spec fn default_dir(home: Option<Seq<u8>>) -> Seq<u8> {
    let config = match home {
        Some(text) => joined_text(text, ".config"@),
        None => encode_utf8(".config"@),
    };
    joined_text(config, "opencode"@)
}

/// The text of a home directory, if there is one.
pub open spec fn home_text(home: Option<PathBuf>) -> Option<Seq<u8>> {
    match home {
        Some(path) => Some(path_text(path)),
        None => None,
    }
}

/// The directory of the configuration, by the override and the home directory: the override if
/// there is one, else the default below the home directory, or below the current one.
pub fn opencode_dir(override_dir: Option<PathBuf>, home: Option<PathBuf>) -> (dir: PathBuf)
    ensures
        match override_dir {
            Some(chosen) => dir == chosen,
            None => path_text(dir) == default_dir(home_text(home)),
        },
{
    if let Some(chosen) = override_dir {
        return chosen;
    }
    let config = match &home {
        Some(h) => join(h, ".config"),
        None => relative(".config"),
    };
    join(&config, "opencode")
}

/// The directory of the configuration. Without an override it is the default below the home
/// directory that the system reports.
pub fn get_opencode_dir(override_dir: Option<PathBuf>) -> (dir: PathBuf)
    ensures
        match override_dir {
            Some(chosen) => dir == chosen,
            None => exists|home: Option<PathBuf>| #[trigger]
                reports_home(home) && path_text(dir) == default_dir(home_text(home)),
        },
{
    if let Some(chosen) = override_dir {
        return chosen;
    }
    let home = ask(home_dir);
    assert(reports_home(home));
    opencode_dir(None, home)
}

/// The configuration file in a directory.
pub fn config_file_in(dir: &PathBuf) -> (path: PathBuf)
    ensures
        path_text(path) == joined_text(path_text(*dir), "opencode.json"@),
{
    join(dir, "opencode.json")
}

/// The path of the configuration file.
pub fn get_opencode_config_path(override_dir: Option<PathBuf>) -> (path: PathBuf)
    ensures
        match override_dir {
            Some(chosen) => path_text(path) == joined_text(path_text(chosen), "opencode.json"@),
            None => exists|home: Option<PathBuf>| #[trigger]
                reports_home(home) && path_text(path) == joined_text(
                    default_dir(home_text(home)),
                    "opencode.json"@,
                ),
        },
{
    let dir = get_opencode_dir(override_dir);
    config_file_in(&dir)
}

/// The configuration that stands for a file that does not exist.
pub open spec fn default_config() -> Json {
    Json::Object(
        Map::empty().insert("$schema"@, Json::Text("https://opencode.ai/config.json"@)),
    )
}

/// The entries of a section; none where the section is missing or is no object.
pub open spec fn section(config: Json, name: Seq<char>) -> Map<Seq<char>, Json> {
    if config.members().contains_key(name) {
        config.members()[name].members()
    } else {
        Map::empty()
    }
}

/// The section can hold entries: it is an object, or missing.
pub open spec fn is_open(config: Json, name: Seq<char>) -> bool {
    config.members().contains_key(name) ==> config.members()[name] is Object
}

/// The configuration can have sections: it is an object, or null, which counts as an empty one.
pub open spec fn can_hold_sections(config: Json) -> bool {
    config is Object || config is Null
}

/// The configuration with that entry in a section. A missing section is added; a section that
/// cannot hold entries is left as it is.
pub open spec fn with_entry(config: Json, name: Seq<char>, id: Seq<char>, entry: Json) -> Json {
    if is_open(config, name) {
        Json::Object(
            config.members().insert(name, Json::Object(section(config, name).insert(id, entry))),
        )
    } else {
        config
    }
}

/// The configuration without that entry in a section.
pub open spec fn without_entry(config: Json, name: Seq<char>, id: Seq<char>) -> Json {
    if config.members().contains_key(name) && config.members()[name] is Object {
        Json::Object(
            config.members().insert(name, Json::Object(section(config, name).remove(id))),
        )
    } else {
        config
    }
}

/// Whether a configuration can have sections.
pub fn holds_sections(config: &Value) -> (possible: bool)
    ensures
        possible == can_hold_sections(json(*config)),
{
    members_of(config).is_some() || is_null(config)
}

/// Takes the content of the configuration file, or that there is no such file.
pub fn read_opencode_config(
    path: PathBuf,
    content: Option<Result<String, std::io::Error>>,
) -> (result: Result<Value, AppError>)
    ensures
        match content {
            None => result is Ok && json(result->Ok_0) == default_config(),
            Some(Err(error)) => result == Err::<Value, AppError>(
                AppError::Io { path, source: error },
            ),
            Some(Ok(text)) => match read_str(text@) {
                Reading::Document(document) => result is Ok && json(result->Ok_0) == document,
                Reading::Malformed(message) => {
                    &&& result is Err
                    &&& result->Err_0 is Json
                    &&& result->Err_0->Json_path == path
                    &&& json_error_text(result->Err_0->Json_source) == message
                },
            },
        },
{
    match content {
        None => {
            let mut members = no_members();
            insert_member(
                &mut members,
                "$schema".to_owned(),
                text_from("https://opencode.ai/config.json".to_owned()),
            );
            let config = object_from(members);
            assert(json(config) == default_config()) by {
                assert(json(config).members() =~= default_config().members());
            }
            Ok(config)
        },
        Some(Err(error)) => Err(AppError::Io { path, source: error }),
        Some(Ok(text)) => match from_str(text.as_str()) {
            Ok(config) => Ok(config),
            Err(error) => Err(AppError::Json { path, source: error }),
        },
    }
}

/// The entries of a section.
fn get_entries(config: &Value, name: &str) -> (entries: serde_json::Map<String, Value>)
    ensures
        json_members(entries) == section(json(*config), name@),
{
    match member(config, name) {
        Some(found) => match members_of(found) {
            Some(entries) => clone_members(entries),
            None => {
                let entries = no_members();
                assert(json_members(entries) =~= section(json(*config), name@));
                entries
            },
        },
        None => {
            let entries = no_members();
            assert(json_members(entries) =~= section(json(*config), name@));
            entries
        },
    }
}

/// Puts an entry into a section.
fn set_entry(config: Value, name: &str, id: &str, entry: Value) -> (updated: Value)
    requires
        can_hold_sections(json(config)),
    ensures
        json(updated) == with_entry(json(config), name@, id@, json(entry)),
{
    let ghost before = json(config);
    let mut full_config = config;
    if member(&full_config, name).is_none() {
        let empty = no_members();
        assert(json_members(empty) =~= Map::<Seq<char>, Json>::empty());
        set_member(&mut full_config, name, object_from(empty));
    }
    let ghost opened = json(full_config);
    if let Some(found) = member_mut(&mut full_config, name) {
        if let Some(entries) = members_mut(found) {
            insert_member(entries, id.to_owned(), entry);
        }
    }
    proof {
        if is_open(before, name@) {
            assert(json(full_config).members() =~= with_entry(
                before,
                name@,
                id@,
                json(entry),
            ).members());
        } else {
            assert(opened == before);
            assert(json(full_config).members() =~= before.members());
        }
    }
    full_config
}

/// Takes an entry out of a section.
fn remove_entry(config: Value, name: &str, id: &str) -> (updated: Value)
    ensures
        json(updated) == without_entry(json(config), name@, id@),
{
    let ghost before = json(config);
    let mut full_config = config;
    if let Some(found) = member_mut(&mut full_config, name) {
        if let Some(entries) = members_mut(found) {
            remove_member(entries, id);
        }
    }
    proof {
        if before.members().contains_key(name@) && !(before.members()[name@] is Object) {
            assert(json(full_config).members() =~= before.members());
        }
    }
    full_config
}

/// The providers of a configuration.
pub fn get_providers(config: &Value) -> (providers: serde_json::Map<String, Value>)
    ensures
        json_members(providers) == section(json(*config), "provider"@),
{
    get_entries(config, "provider")
}

/// The configuration with that provider.
pub fn set_provider(config: Value, id: &str, provider: Value) -> (updated: Value)
    requires
        can_hold_sections(json(config)),
    ensures
        json(updated) == with_entry(json(config), "provider"@, id@, json(provider)),
{
    set_entry(config, "provider", id, provider)
}

/// The configuration without that provider.
pub fn remove_provider(config: Value, id: &str) -> (updated: Value)
    ensures
        json(updated) == without_entry(json(config), "provider"@, id@),
{
    remove_entry(config, "provider", id)
}

/// The MCP servers of a configuration.
pub fn get_mcp_servers(config: &Value) -> (servers: serde_json::Map<String, Value>)
    ensures
        json_members(servers) == section(json(*config), "mcp"@),
{
    get_entries(config, "mcp")
}

/// The configuration with that MCP server.
pub fn set_mcp_server(config: Value, id: &str, server: Value) -> (updated: Value)
    requires
        can_hold_sections(json(config)),
    ensures
        json(updated) == with_entry(json(config), "mcp"@, id@, json(server)),
{
    set_entry(config, "mcp", id, server)
}

/// The configuration without that MCP server.
pub fn remove_mcp_server(config: Value, id: &str) -> (updated: Value)
    ensures
        json(updated) == without_entry(json(config), "mcp"@, id@),
{
    remove_entry(config, "mcp", id)
}

/// The configuration with a provider that was turned into JSON. A provider that could not be is
/// reported first, then a configuration that could not be read.
pub fn set_typed_provider(
    config: Result<Value, AppError>,
    id: &str,
    provider: Result<Value, serde_json::Error>,
) -> (result: Result<Value, AppError>)
    requires
        provider is Ok && config is Ok ==> can_hold_sections(json(config->Ok_0)),
    ensures
        match (provider, config) {
            (Err(error), _) => result == Err::<Value, AppError>(
                AppError::JsonSerialize { source: error },
            ),
            (Ok(_), Err(error)) => result == Err::<Value, AppError>(error),
            (Ok(value), Ok(full_config)) => result is Ok && json(result->Ok_0) == with_entry(
                json(full_config),
                "provider"@,
                id@,
                json(value),
            ),
        },
{
    match provider {
        Err(error) => Err(AppError::JsonSerialize { source: error }),
        Ok(value) => match config {
            Err(error) => Err(error),
            Ok(full_config) => Ok(set_provider(full_config, id, value)),
        },
    }
}

/// The entries of an ordered map with one more: a new key comes last, and a known one keeps its
/// place.
pub open spec fn index_with(
    entries: Seq<(Seq<char>, usize)>,
    key: Seq<char>,
    value: usize,
) -> Seq<(Seq<char>, usize)> {
    if has_key(entries, key) {
        entries.map_values(
            |e: (Seq<char>, usize)|
                if e.0 == key {
                    (key, value)
                } else {
                    e
                },
        )
    } else {
        entries.push((key, value))
    }
}

/// An entry has that key.
pub open spec fn has_key(entries: Seq<(Seq<char>, usize)>, key: Seq<char>) -> bool {
    exists|i: int| 0 <= i < entries.len() && (#[trigger] entries[i]).0 == key
}

/// `IndexMap::new`: no entries.
#[verifier::external_body]
fn new_index() -> (map: IndexMap<String, usize>)
    ensures
        index_entries(map).len() == 0,
{
    IndexMap::new()
}

/// `IndexMap::insert`: a new key comes last, and a known one keeps its place.
#[verifier::external_body]
fn index_insert(map: &mut IndexMap<String, usize>, key: String, value: usize)
    ensures
        index_entries(*final(map)) == index_with(index_entries(*old(map)), key@, value),
{
    map.insert(key, value);
}

/// The entries for those of the first `n` names whose flag is set, each with its position.
pub open spec fn typed_entries(ids: Seq<String>, parsed: Seq<bool>, n: int) -> Seq<
    (Seq<char>, usize),
>
    decreases n,
{
    if n <= 0 {
        seq![]
    } else if parsed[n - 1] {
        index_with(typed_entries(ids, parsed, n - 1), ids[n - 1]@, (n - 1) as usize)
    } else {
        typed_entries(ids, parsed, n - 1)
    }
}

/// The providers that could be parsed, in the order in which they came, each with its position
/// among all that came. The others are left out.
pub fn get_typed_providers(ids: &Vec<String>, parsed: &Vec<bool>) -> (providers: IndexMap<
    String,
    usize,
>)
    requires
        ids@.len() == parsed@.len(),
    ensures
        index_entries(providers) == typed_entries(ids@, parsed@, ids@.len() as int),
{
    let mut providers = new_index();
    assert(index_entries(providers) =~= typed_entries(ids@, parsed@, 0));
    for i in 0..ids.len()
        invariant
            ids@.len() == parsed@.len(),
            index_entries(providers) == typed_entries(ids@, parsed@, i as int),
    {
        if parsed[i] {
            index_insert(&mut providers, ids[i].clone(), i);
        }
    }
    providers
}

/// What was put into a section is found there, in place of what was there under the same name,
/// and every other entry of the section stays.
pub proof fn set_entry_is_found(config: Json, name: Seq<char>, id: Seq<char>, entry: Json)
    requires
        is_open(config, name),
    ensures
        section(with_entry(config, name, id, entry), name) == section(config, name).insert(
            id,
            entry,
        ),
{
}

/// A section that holds something other than entries is not touched.
pub proof fn closed_section_is_not_touched(
    config: Json,
    name: Seq<char>,
    id: Seq<char>,
    entry: Json,
)
    requires
        !is_open(config, name),
    ensures
        with_entry(config, name, id, entry) == config,
        without_entry(config, name, id) == config,
        section(config, name) == Map::<Seq<char>, Json>::empty(),
{
}

/// What was taken out of a section is no longer found there, and every other entry stays.
pub proof fn removed_entry_is_gone(config: Json, name: Seq<char>, id: Seq<char>)
    ensures
        section(without_entry(config, name, id), name) == section(config, name).remove(id),
{
    assert(section(without_entry(config, name, id), name) =~= section(config, name).remove(id));
}

/// Changing one section leaves every other member of the configuration as it is: providers and
/// MCP servers do not disturb each other, nor anything else in the file.
pub proof fn other_members_stay(
    config: Json,
    name: Seq<char>,
    id: Seq<char>,
    entry: Json,
    other: Seq<char>,
)
    requires
        other != name,
    ensures
        with_entry(config, name, id, entry).members().contains_key(other)
            <==> config.members().contains_key(other),
        config.members().contains_key(other) ==> with_entry(config, name, id, entry).members()[other]
            == config.members()[other],
        without_entry(config, name, id).members().contains_key(other)
            <==> config.members().contains_key(other),
        config.members().contains_key(other) ==> without_entry(config, name, id).members()[other]
            == config.members()[other],
{
}

/// Of two entries that are put under one name the later one stays, as if the first had never been
/// there.
pub proof fn later_entry_replaces_earlier(
    config: Json,
    name: Seq<char>,
    id: Seq<char>,
    first: Json,
    second: Json,
)
    ensures
        with_entry(with_entry(config, name, id, first), name, id, second) == with_entry(
            config,
            name,
            id,
            second,
        ),
{
    if is_open(config, name) {
        let once = with_entry(config, name, id, first);
        assert(section(once, name).insert(id, second) =~= section(config, name).insert(id, second));
        assert(with_entry(once, name, id, second).members() =~= with_entry(
            config,
            name,
            id,
            second,
        ).members());
    }
}

/// Taking an entry out undoes putting it in, where the section was there and the name of the entry
/// was not in use.
pub proof fn removing_undoes_setting(config: Json, name: Seq<char>, id: Seq<char>, entry: Json)
    requires
        !section(config, name).contains_key(id),
        config.members().contains_key(name),
    ensures
        without_entry(with_entry(config, name, id, entry), name, id) == config,
{
    if is_open(config, name) {
        let set = with_entry(config, name, id, entry);
        assert(section(set, name).remove(id) =~= section(config, name));
        assert(without_entry(set, name, id).members() =~= config.members());
    }
}

/// A configuration that can hold sections still can after an entry was put in or taken out.
pub proof fn sections_stay_possible(config: Json, name: Seq<char>, id: Seq<char>, entry: Json)
    requires
        can_hold_sections(config),
    ensures
        can_hold_sections(with_entry(config, name, id, entry)),
        can_hold_sections(without_entry(config, name, id)),
        can_hold_sections(default_config()),
{
}

/// Where no name came twice, the typed providers are exactly those that could be parsed, in the
/// order in which they came.
pub proof fn typed_providers_keep_their_order(ids: Seq<String>, parsed: Seq<bool>, n: int)
    requires
        0 <= n <= ids.len(),
        ids.len() == parsed.len(),
        ids.len() <= usize::MAX,
        forall|i: int, j: int| 0 <= i < j < ids.len() ==> #[trigger] ids[i]@ != #[trigger] ids[j]@,
    ensures
        forall|k: int|
            #![trigger typed_entries(ids, parsed, n)[k]]
            0 <= k < typed_entries(ids, parsed, n).len() ==> {
                let at = typed_entries(ids, parsed, n)[k].1;
                at < n && parsed[at as int] && typed_entries(ids, parsed, n)[k].0 == ids[at as int]@
            },
        forall|k: int, l: int|
            0 <= k < l < typed_entries(ids, parsed, n).len() ==> (
            #[trigger] typed_entries(ids, parsed, n)[k]).1 < (#[trigger] typed_entries(
                ids,
                parsed,
                n,
            )[l]).1,
        forall|i: int|
            0 <= i < n && #[trigger] parsed[i] ==> typed_entries(ids, parsed, n).contains(
                (ids[i]@, i as usize),
            ),
    decreases n,
{
    if n > 0 {
        typed_providers_keep_their_order(ids, parsed, n - 1);
        let before = typed_entries(ids, parsed, n - 1);
        let after = typed_entries(ids, parsed, n);
        if parsed[n - 1] {
            assert(!has_key(before, ids[n - 1]@)) by {
                if has_key(before, ids[n - 1]@) {
                    let k = choose|k: int|
                        0 <= k < before.len() && (#[trigger] before[k]).0 == ids[n - 1]@;
                    assert(ids[before[k].1 as int]@ != ids[n - 1]@);
                }
            }
            assert(after == before.push((ids[n - 1]@, (n - 1) as usize)));
            assert forall|i: int| 0 <= i < n && #[trigger] parsed[i] implies after.contains(
                (ids[i]@, i as usize),
            ) by {
                if i == n - 1 {
                    assert(after[before.len() as int] == (ids[i]@, i as usize));
                } else {
                    let k = choose|k: int|
                        0 <= k < before.len() && before[k] == (ids[i]@, i as usize);
                    assert(after[k] == (ids[i]@, i as usize));
                }
            }
        }
    }
}

} // verus!
