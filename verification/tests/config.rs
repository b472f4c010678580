use proxy_response::error::AppError;
use proxy_response::opencode_config::{
    config_file_in, get_mcp_servers, get_opencode_config_path, get_opencode_dir, get_providers,
    get_typed_providers, holds_sections, opencode_dir, read_opencode_config, remove_mcp_server,
    remove_provider, set_mcp_server, set_provider, set_typed_provider, OPENCODE_DEFAULT_NPM,
};
use serde_json::Value;
use std::path::PathBuf;

fn document(text: &str) -> Value {
    serde_json::from_str(text).expect("a JSON document")
}

#[test]
fn default_package() {
    assert_eq!(OPENCODE_DEFAULT_NPM, "@ai-sdk/openai-compatible");
}

#[test]
fn directory_is_the_override_or_the_default() {
    let chosen = PathBuf::from("/srv/opencode-config");
    let home = PathBuf::from("/home/someone");
    assert_eq!(opencode_dir(Some(chosen.clone()), Some(home.clone())), chosen);
    assert_eq!(opencode_dir(Some(chosen.clone()), None), chosen);
    assert_eq!(
        opencode_dir(None, Some(home)),
        PathBuf::from("/home/someone/.config/opencode")
    );
    assert_eq!(
        opencode_dir(None, None),
        PathBuf::from(".config").join("opencode")
    );
}

#[test]
fn path_is_that_of_the_file_in_the_directory() {
    let chosen = PathBuf::from("/srv/opencode-config");
    assert_eq!(get_opencode_dir(Some(chosen.clone())), chosen);
    assert_eq!(
        get_opencode_config_path(Some(chosen.clone())),
        chosen.join("opencode.json")
    );
    assert_eq!(
        config_file_in(&PathBuf::from("a/b")),
        PathBuf::from("a/b/opencode.json")
    );
    assert!(get_opencode_dir(None).ends_with(".config/opencode"));
    assert!(get_opencode_config_path(None).ends_with(".config/opencode/opencode.json"));
}

#[test]
fn missing_file_reads_as_the_default_configuration() {
    let config = read_opencode_config(PathBuf::from("x"), None).expect("the default");
    assert_eq!(
        config,
        document(r#"{"$schema": "https://opencode.ai/config.json"}"#)
    );
}

#[test]
fn file_is_read_as_json() {
    let text = r#"{"provider": {"a": {"npm": "x"}}, "n": [1, 2.5, null, true]}"#;
    let config = read_opencode_config(PathBuf::from("x"), Some(Ok(text.to_string())));
    assert_eq!(config.expect("the configuration"), document(text));

    match read_opencode_config(PathBuf::from("here"), Some(Ok("{".to_string()))) {
        Err(AppError::Json { path, source }) => {
            assert_eq!(path, PathBuf::from("here"));
            assert_eq!(
                source.to_string(),
                serde_json::from_str::<Value>("{").expect_err("no JSON").to_string()
            );
        }
        other => panic!("expected a JSON error, got {other:?}"),
    }
    let error = std::io::Error::other("denied");
    match read_opencode_config(PathBuf::from("there"), Some(Err(error))) {
        Err(AppError::Io { path, source }) => {
            assert_eq!(path, PathBuf::from("there"));
            assert_eq!(source.to_string(), "denied");
        }
        other => panic!("expected an I/O error, got {other:?}"),
    }
}

#[test]
fn sections_are_read_as_objects() {
    let config = document(r#"{"provider": {"a": 1, "b": {}}, "mcp": [3]}"#);
    let providers = get_providers(&config);
    assert_eq!(Value::from(providers), document(r#"{"a": 1, "b": {}}"#));
    assert!(get_mcp_servers(&config).is_empty());
    assert!(get_providers(&document("{}")).is_empty());
    assert!(get_providers(&document("[1]")).is_empty());
    assert!(get_providers(&Value::Null).is_empty());
}

#[test]
fn set_entry_is_read_back() {
    let config = document(r#"{"theme": "dark", "mcp": {"m": 1}}"#);
    let once = set_provider(config, "a", Value::from(1));
    assert_eq!(
        once,
        document(r#"{"theme": "dark", "mcp": {"m": 1}, "provider": {"a": 1}}"#)
    );
    let twice = set_provider(once, "a", Value::from(2));
    let more = set_provider(twice, "b", Value::from("x"));
    assert_eq!(
        Value::from(get_providers(&more)),
        document(r#"{"a": 2, "b": "x"}"#)
    );
    assert_eq!(Value::from(get_mcp_servers(&more)), document(r#"{"m": 1}"#));
    assert_eq!(more["theme"], "dark");

    let server = set_mcp_server(more, "n", Value::Null);
    assert_eq!(
        server,
        document(
            r#"{
                "theme": "dark",
                "mcp": {"m": 1, "n": null},
                "provider": {"a": 2, "b": "x"}
            }"#
        )
    );
}

#[test]
fn removing_undoes_setting() {
    let config = document(r#"{"provider": {"a": 1}, "mcp": {}}"#);
    let set = set_provider(config.clone(), "b", Value::from(2));
    assert_eq!(remove_provider(set, "b"), config);
    let served = set_mcp_server(config.clone(), "m", Value::from(2));
    assert_eq!(remove_mcp_server(served, "m"), config);
    assert_eq!(remove_provider(config.clone(), "zzz"), config);
    assert_eq!(
        remove_provider(config, "a"),
        document(r#"{"provider": {}, "mcp": {}}"#)
    );
    assert_eq!(remove_provider(document("[1]"), "a"), document("[1]"));
    assert_eq!(remove_mcp_server(document("{}"), "a"), document("{}"));
}

#[test]
fn missing_section_stays_behind_empty() {
    let set = set_mcp_server(document("{}"), "m", Value::from(1));
    assert_eq!(remove_mcp_server(set, "m"), document(r#"{"mcp": {}}"#));
}

#[test]
fn section_that_is_no_object_is_not_touched() {
    for text in [
        r#"{"provider": null}"#,
        r#"{"provider": [1]}"#,
        r#"{"provider": "x"}"#,
    ] {
        let config = document(text);
        assert_eq!(set_provider(config.clone(), "a", Value::from(1)), config);
        assert_eq!(remove_provider(config.clone(), "a"), config);
    }
}

#[test]
fn null_counts_as_an_empty_configuration() {
    assert!(holds_sections(&Value::Null));
    assert!(holds_sections(&document("{}")));
    for text in ["[]", "1", "true", r#""x""#] {
        assert!(!holds_sections(&document(text)));
    }
    assert_eq!(
        set_provider(Value::Null, "a", Value::from(1)),
        document(r#"{"provider": {"a": 1}}"#)
    );
}

#[test]
fn typed_provider_is_set_or_the_failure_reported() {
    let json_error = || serde_json::from_str::<Value>("x").expect_err("no JSON");
    let set = set_typed_provider(Ok(document("{}")), "a", Ok(Value::from(1)));
    assert_eq!(
        set.expect("the configuration"),
        document(r#"{"provider": {"a": 1}}"#)
    );
    let unread = || {
        Err(AppError::Json { path: PathBuf::from("p"), source: json_error() })
    };
    assert!(matches!(
        set_typed_provider(unread(), "a", Err(json_error())),
        Err(AppError::JsonSerialize { .. })
    ));
    assert!(matches!(
        set_typed_provider(Ok(document("{}")), "a", Err(json_error())),
        Err(AppError::JsonSerialize { .. })
    ));
    assert!(matches!(
        set_typed_provider(unread(), "a", Ok(Value::Null)),
        Err(AppError::Json { .. })
    ));
}

#[test]
fn typed_providers_keep_their_order() {
    let ids: Vec<String> = ["z", "a", "m", "b"].iter().map(|id| id.to_string()).collect();
    let providers = get_typed_providers(&ids, &vec![true, false, true, true]);
    let entries: Vec<(&str, usize)> =
        providers.iter().map(|(id, at)| (id.as_str(), *at)).collect();
    assert_eq!(entries, vec![("z", 0), ("m", 2), ("b", 3)]);

    let repeated: Vec<String> = ["z", "a", "z"].iter().map(|id| id.to_string()).collect();
    let merged = get_typed_providers(&repeated, &vec![true, true, true]);
    let entries: Vec<(&str, usize)> =
        merged.iter().map(|(id, at)| (id.as_str(), *at)).collect();
    assert_eq!(entries, vec![("z", 2), ("a", 1)]);
    assert!(get_typed_providers(&Vec::new(), &Vec::new()).is_empty());
}
