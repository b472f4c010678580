//! Where the configuration lies, and what its sections hold.

use indexmap::IndexMap;
use serde_json::Value;
use std::path::PathBuf;
use vstd::prelude::*;
use vstd::utf8::encode_utf8;

use crate::error::AppError;
use crate::json::{json, json_error_text, json_members, read_str, Json, Reading};
use crate::opencode_config::{
    config_file_in, get_mcp_servers, get_opencode_config_path, get_opencode_dir, get_providers,
    get_typed_providers, has_key, holds_sections, home_dir, index_entries, joined_text,
    lemma_reports_home, opencode_dir, path_text, read_opencode_config, remove_mcp_server,
    remove_provider, reports_home, set_mcp_server, set_provider, set_typed_provider, typed_entries,
    typed_providers_keep_their_order,
};

verus! {

/// An override is the directory. Without one, the directory is `.config`, then `opencode`, below
/// the home directory, or, where there is no home directory, below the current one.
pub proof fn directory_is_the_override_or_below_the_home(
    override_dir: Option<PathBuf>,
    home: Option<PathBuf>,
    dir: PathBuf,
)
    requires
        opencode_dir.ensures((override_dir, home), dir),
    ensures
        override_dir is Some ==> dir == override_dir->Some_0,
        override_dir is None && home is Some ==> path_text(dir) == joined_text(
            joined_text(path_text(home->Some_0), ".config"@),
            "opencode"@,
        ),
        override_dir is None && home is None ==> path_text(dir) == joined_text(
            encode_utf8(".config"@),
            "opencode"@,
        ),
{
}

/// Without an override, the directory is the one below the home directory that the system was
/// asked for: what it answered decides, and the current directory serves only where it answered
/// that there is none.
pub(crate) proof fn home_is_the_one_that_the_system_reports(
    override_dir: Option<PathBuf>,
    dir: PathBuf,
    path: PathBuf,
)
    requires
        get_opencode_dir.ensures((override_dir,), dir),
        get_opencode_config_path.ensures((override_dir,), path),
    ensures
        override_dir is Some ==> dir == override_dir->Some_0 && path_text(path) == joined_text(
            path_text(override_dir->Some_0),
            "opencode.json"@,
        ),
        override_dir is None ==> exists|home: Option<PathBuf>| #[trigger]
            home_dir.ensures((), home) && path_text(dir) == joined_text(
                match home {
                    Some(path) => joined_text(path_text(path), ".config"@),
                    None => encode_utf8(".config"@),
                },
                "opencode"@,
            ),
        override_dir is None ==> exists|home: Option<PathBuf>| #[trigger]
            home_dir.ensures((), home) && path_text(path) == joined_text(
                joined_text(
                    match home {
                        Some(path) => joined_text(path_text(path), ".config"@),
                        None => encode_utf8(".config"@),
                    },
                    "opencode"@,
                ),
                "opencode.json"@,
            ),
{
    if override_dir is None {
        assert forall|home: Option<PathBuf>| #[trigger] reports_home(home) implies home_dir.ensures(
            (),
            home,
        ) by {
            lemma_reports_home(home);
        }
    }
}

/// The configuration is the file `opencode.json` in its directory.
pub proof fn file_is_in_the_directory(dir: &PathBuf, path: PathBuf)
    requires
        config_file_in.ensures((dir,), path),
    ensures
        path_text(path) == joined_text(path_text(*dir), "opencode.json"@),
{
}

/// A missing file reads as an object with one member, the schema. A file that is there reads as
/// the document that it holds, and what cannot be read is reported with the path.
pub proof fn configuration_is_the_document_in_the_file(
    path: PathBuf,
    content: Option<Result<String, std::io::Error>>,
    result: Result<Value, AppError>,
)
    requires
        read_opencode_config.ensures((path, content), result),
    ensures
        content is None ==> result is Ok && json(result->Ok_0) is Object && (forall|
            name: Seq<char>,
        | #[trigger]
            json(result->Ok_0)->Object_0.contains_key(name) <==> name == "$schema"@) && json(
            result->Ok_0,
        )->Object_0["$schema"@] == Json::Text("https://opencode.ai/config.json"@),
        content matches Some(Err(error)) ==> result == Err::<Value, AppError>(
            AppError::Io { path, source: error },
        ),
        content matches Some(Ok(text)) ==> (read_str(text@) matches Reading::Document(document)
            ==> result is Ok && json(result->Ok_0) == document),
        content matches Some(Ok(text)) ==> (read_str(text@) matches Reading::Malformed(message)
            ==> result is Err && result->Err_0 is Json && result->Err_0->Json_path == path
            && json_error_text(result->Err_0->Json_source) == message),
{
}

/// The entries that a section of that name holds: those of the object that stands there, and none
/// if there is no such object.
pub open spec fn holds_entries(
    config: Json,
    section: Seq<char>,
    entries: Map<Seq<char>, Json>,
) -> bool {
    if config is Object && config->Object_0.contains_key(section)
        && config->Object_0[section] is Object {
        entries == config->Object_0[section]->Object_0
    } else {
        forall|id: Seq<char>| !(#[trigger] entries.contains_key(id))
    }
}

/// Providers are read from the section `provider`, and MCP servers from `mcp`.
pub proof fn sections_are_read_by_their_names(
    config: &Value,
    providers: serde_json::Map<String, Value>,
    servers: serde_json::Map<String, Value>,
)
    requires
        get_providers.ensures((config,), providers),
        get_mcp_servers.ensures((config,), servers),
    ensures
        holds_entries(json(*config), "provider"@, json_members(providers)),
        holds_entries(json(*config), "mcp"@, json_members(servers)),
{
}

/// A configuration can have sections exactly if it is an object or null.
pub proof fn objects_and_null_hold_sections(config: &Value, possible: bool)
    requires
        holds_sections.ensures((config,), possible),
    ensures
        possible <==> json(*config) is Object || json(*config) is Null,
{
}

/// `updated` is `config` with `entry` in that section, and differs from it in nothing else. A
/// section that is missing is added; one that is no object stays, and with it everything.
pub open spec fn has_put(
    config: Json,
    section: Seq<char>,
    id: Seq<char>,
    entry: Json,
    updated: Json,
) -> bool {
    if config is Object && config->Object_0.contains_key(section) && !(
    config->Object_0[section] is Object) {
        updated == config
    } else {
        &&& updated is Object
        &&& updated->Object_0.contains_key(section)
        &&& updated->Object_0[section] is Object
        &&& updated->Object_0[section]->Object_0.contains_key(id)
        &&& updated->Object_0[section]->Object_0[id] == entry
        &&& forall|other: Seq<char>|
            other != id ==> (
            #[trigger] updated->Object_0[section]->Object_0.contains_key(other) <==> (
            config is Object && config->Object_0.contains_key(section)
                && config->Object_0[section]->Object_0.contains_key(other)))
        &&& forall|other: Seq<char>|
            other != id && #[trigger] updated->Object_0[section]->Object_0.contains_key(other)
                ==> updated->Object_0[section]->Object_0[other]
                == config->Object_0[section]->Object_0[other]
        &&& forall|other: Seq<char>|
            other != section ==> (#[trigger] updated->Object_0.contains_key(other) <==> (
            config is Object && config->Object_0.contains_key(other)))
        &&& forall|other: Seq<char>|
            other != section && #[trigger] updated->Object_0.contains_key(other)
                ==> updated->Object_0[other] == config->Object_0[other]
    }
}

/// A provider that is set stands in the section `provider`, an MCP server in `mcp`, and everything
/// else stays.
pub proof fn set_entries_stand_in_their_sections(
    config: Value,
    id: &str,
    entry: Value,
    with_provider: Value,
    with_server: Value,
)
    requires
        set_provider.ensures((config, id, entry), with_provider),
        set_mcp_server.ensures((config, id, entry), with_server),
        json(config) is Object || json(config) is Null,
    ensures
        has_put(json(config), "provider"@, id@, json(entry), json(with_provider)),
        has_put(json(config), "mcp"@, id@, json(entry), json(with_server)),
{
}

/// `updated` is `config` without that entry of that section, and differs from it in nothing else.
pub open spec fn has_dropped(
    config: Json,
    section: Seq<char>,
    id: Seq<char>,
    updated: Json,
) -> bool {
    if config is Object && config->Object_0.contains_key(section)
        && config->Object_0[section] is Object {
        &&& updated is Object
        &&& updated->Object_0.contains_key(section)
        &&& updated->Object_0[section] is Object
        &&& !updated->Object_0[section]->Object_0.contains_key(id)
        &&& forall|other: Seq<char>|
            other != id ==> (
            #[trigger] updated->Object_0[section]->Object_0.contains_key(other)
                <==> config->Object_0[section]->Object_0.contains_key(other))
        &&& forall|other: Seq<char>|
            other != id && #[trigger] updated->Object_0[section]->Object_0.contains_key(other)
                ==> updated->Object_0[section]->Object_0[other]
                == config->Object_0[section]->Object_0[other]
        &&& forall|other: Seq<char>|
            #[trigger] updated->Object_0.contains_key(other) <==> config->Object_0.contains_key(
                other,
            )
        &&& forall|other: Seq<char>|
            other != section && #[trigger] updated->Object_0.contains_key(other)
                ==> updated->Object_0[other] == config->Object_0[other]
    } else {
        updated == config
    }
}

/// A provider that is removed goes from the section `provider`, an MCP server from `mcp`, and
/// everything else stays.
pub proof fn removed_entries_go_from_their_sections(
    config: Value,
    id: &str,
    without_provider: Value,
    without_server: Value,
)
    requires
        remove_provider.ensures((config, id), without_provider),
        remove_mcp_server.ensures((config, id), without_server),
    ensures
        has_dropped(json(config), "provider"@, id@, json(without_provider)),
        has_dropped(json(config), "mcp"@, id@, json(without_server)),
{
}

/// What was set is read back, and what was removed is not; the other section reads as before.
pub proof fn what_was_set_is_read_back(
    config: &Value,
    owned: Value,
    id: &str,
    entry: Value,
    updated: &Value,
    before: serde_json::Map<String, Value>,
    after: serde_json::Map<String, Value>,
    servers_before: serde_json::Map<String, Value>,
    servers_after: serde_json::Map<String, Value>,
    removed: &Value,
    left: serde_json::Map<String, Value>,
)
    requires
        json(owned) == json(*config),
        json(*config) is Object || json(*config) is Null,
        json(*config) is Object && json(*config)->Object_0.contains_key("provider"@) ==> json(
            *config,
        )->Object_0["provider"@] is Object,
        set_provider.ensures((owned, id, entry), *updated),
        get_providers.ensures((config,), before),
        get_providers.ensures((updated,), after),
        get_mcp_servers.ensures((config,), servers_before),
        get_mcp_servers.ensures((updated,), servers_after),
        remove_provider.ensures((*updated, id), *removed),
        get_providers.ensures((removed,), left),
    ensures
        json_members(after) == json_members(before).insert(id@, json(entry)),
        json_members(servers_after) == json_members(servers_before),
        json_members(left) == json_members(before).remove(id@),
{
    reveal_strlit("provider");
    reveal_strlit("mcp");
    assert("provider"@.len() != "mcp"@.len());
    assert(json_members(after) =~= json_members(before).insert(id@, json(entry)));
    assert(json_members(servers_after) =~= json_members(servers_before));
    assert(json_members(left) =~= json_members(before).remove(id@));
}

/// A typed provider is set as its JSON form is. A form that could not be made is reported before a
/// configuration that could not be read.
pub proof fn typed_provider_is_set_as_its_json_form(
    config: Result<Value, AppError>,
    id: &str,
    provider: Result<Value, serde_json::Error>,
    result: Result<Value, AppError>,
)
    requires
        set_typed_provider.ensures((config, id, provider), result),
        config is Ok ==> json(config->Ok_0) is Object || json(config->Ok_0) is Null,
    ensures
        provider is Err ==> result == Err::<Value, AppError>(
            AppError::JsonSerialize { source: provider->Err_0 },
        ),
        provider is Ok && config is Err ==> result == Err::<Value, AppError>(config->Err_0),
        provider is Ok && config is Ok ==> result is Ok && has_put(
            json(config->Ok_0),
            "provider"@,
            id@,
            json(provider->Ok_0),
            json(result->Ok_0),
        ),
{
}

/// The typed providers are those that could be parsed: of one name the last that could be, and
/// each name once. Where no name came twice they stand in the order in which they came.
pub proof fn typed_providers_are_those_that_parsed(
    ids: &Vec<String>,
    parsed: &Vec<bool>,
    providers: IndexMap<String, usize>,
)
    requires
        get_typed_providers.ensures((ids, parsed), providers),
        ids@.len() == parsed@.len(),
        ids@.len() <= usize::MAX,
    ensures
        forall|k: int|
            0 <= k < index_entries(providers).len() ==> is_last_parsed(
                ids@,
                parsed@,
                (#[trigger] index_entries(providers)[k]).1 as int,
            ) && index_entries(providers)[k].0 == ids@[index_entries(providers)[k].1 as int]@,
        forall|i: int| #[trigger]
            is_last_parsed(ids@, parsed@, i) ==> index_entries(providers).contains(
                (ids@[i]@, i as usize),
            ),
        forall|k: int, l: int|
            0 <= k < l < index_entries(providers).len() ==> (#[trigger] index_entries(
                providers,
            )[k]).0 != (#[trigger] index_entries(providers)[l]).0,
        (forall|i: int, j: int|
            0 <= i < j < ids@.len() ==> #[trigger] ids@[i]@ != #[trigger] ids@[j]@) ==> (forall|
            k: int,
            l: int,
        |
            0 <= k < l < index_entries(providers).len() ==> (#[trigger] index_entries(
                providers,
            )[k]).1 < (#[trigger] index_entries(providers)[l]).1),
{
    lemma_typed_entries(ids@, parsed@, ids@.len() as int);
    let entries = index_entries(providers);
    assert forall|k: int| 0 <= k < entries.len() implies is_last_parsed(
        ids@,
        parsed@,
        (#[trigger] entries[k]).1 as int,
    ) && entries[k].0 == ids@[entries[k].1 as int]@ by {
        assert(is_last_within(ids@, parsed@, entries[k].1 as int, ids@.len() as int));
    }
    assert forall|i: int| #[trigger] is_last_parsed(ids@, parsed@, i) implies entries.contains(
        (ids@[i]@, i as usize),
    ) by {
        assert(is_last_within(ids@, parsed@, i, ids@.len() as int));
    }
    if forall|i: int, j: int|
        0 <= i < j < ids@.len() ==> #[trigger] ids@[i]@ != #[trigger] ids@[j]@ {
        typed_providers_keep_their_order(ids@, parsed@, ids@.len() as int);
    }
}

/// The one at `i` could be parsed, and no later one of the same name could be.
pub open spec fn is_last_parsed(ids: Seq<String>, parsed: Seq<bool>, i: int) -> bool {
    &&& 0 <= i < ids.len()
    &&& parsed[i]
    &&& forall|j: int| i < j < ids.len() && parsed[j] ==> #[trigger] ids[j]@ != ids[i]@
}

spec fn is_last_within(ids: Seq<String>, parsed: Seq<bool>, i: int, n: int) -> bool {
    &&& 0 <= i < n
    &&& parsed[i]
    &&& forall|j: int| i < j < n && parsed[j] ==> #[trigger] ids[j]@ != ids[i]@
}

proof fn lemma_typed_entries(ids: Seq<String>, parsed: Seq<bool>, n: int)
    requires
        0 <= n <= ids.len(),
        ids.len() == parsed.len(),
        ids.len() <= usize::MAX,
    ensures
        forall|k: int|
            0 <= k < typed_entries(ids, parsed, n).len() ==> is_last_within(
                ids,
                parsed,
                (#[trigger] typed_entries(ids, parsed, n)[k]).1 as int,
                n,
            ) && typed_entries(ids, parsed, n)[k].0 == ids[typed_entries(
                ids,
                parsed,
                n,
            )[k].1 as int]@,
        forall|i: int| #[trigger]
            is_last_within(ids, parsed, i, n) ==> typed_entries(ids, parsed, n).contains(
                (ids[i]@, i as usize),
            ),
        forall|k: int, l: int|
            0 <= k < l < typed_entries(ids, parsed, n).len() ==> (#[trigger] typed_entries(
                ids,
                parsed,
                n,
            )[k]).0 != (#[trigger] typed_entries(ids, parsed, n)[l]).0,
    decreases n,
{
    if n > 0 {
        lemma_typed_entries(ids, parsed, n - 1);
        let before = typed_entries(ids, parsed, n - 1);
        let after = typed_entries(ids, parsed, n);
        let key = ids[n - 1]@;
        if parsed[n - 1] {
            let last = (key, (n - 1) as usize);
            assert(is_last_within(ids, parsed, n - 1, n));
            if has_key(before, key) {
                let at = choose|at: int|
                    0 <= at < before.len() && (#[trigger] before[at]).0 == key;
                assert(after.len() == before.len());
                assert forall|k: int| 0 <= k < after.len() implies #[trigger] after[k] == (if k
                    == at {
                    last
                } else {
                    before[k]
                }) by {
                    if k < at {
                        assert(before[k].0 != before[at].0);
                    }
                    if at < k {
                        assert(before[at].0 != before[k].0);
                    }
                }
                assert(after[at] == last);
            } else {
                assert(after == before.push(last));
                assert(after[before.len() as int] == last);
            }
            assert forall|k: int| 0 <= k < after.len() implies is_last_within(
                ids,
                parsed,
                (#[trigger] after[k]).1 as int,
                n,
            ) && after[k].0 == ids[after[k].1 as int]@ by {
                if after[k] != last {
                    assert(after[k] == before[k]);
                    let i = before[k].1 as int;
                    assert(is_last_within(ids, parsed, i, n - 1));
                    assert(before[k].0 != key);
                }
            }
            assert forall|i: int| #[trigger] is_last_within(ids, parsed, i, n) implies after.contains(
                (ids[i]@, i as usize),
            ) by {
                if i < n - 1 {
                    assert(is_last_within(ids, parsed, i, n - 1));
                    assert(ids[n - 1]@ != ids[i]@);
                    let k = choose|k: int| 0 <= k < before.len() && before[k] == (ids[i]@, i as usize);
                    assert(after[k] == before[k]);
                } else {
                    assert(after.contains(last));
                }
            }
        } else {
            assert forall|i: int| is_last_within(ids, parsed, i, n - 1) == #[trigger] is_last_within(
                ids,
                parsed,
                i,
                n,
            ) by {}
        }
    }
}

} // verus!
