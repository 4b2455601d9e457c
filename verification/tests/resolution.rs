use module_resolver::errors::FlyError;
use module_resolver::fs_model::FsSnapshot;
use module_resolver::loader::{JsonSecretsLoader, LocalDiskRawLoader};
use module_resolver::manager::{ModuleResolverManager, StandardModuleResolverManager};
use module_resolver::resolver::{
    replace_extension, JsonSecretsResolver, LocalDiskModuleResolver, ModuleResolver, RefererInfo,
};
use module_resolver::urls::parse_url;

fn referer(origin: &str) -> RefererInfo {
    RefererInfo {
        origin_url: origin.to_string(),
        is_wasm: Some(false),
        source_code: None,
        indentifier_hash: None,
    }
}

fn disk_manager() -> StandardModuleResolverManager {
    StandardModuleResolverManager::new(vec![ModuleResolver::LocalDisk(
        LocalDiskModuleResolver::new("/".to_string()),
    )])
}

fn json_value(text: &str) -> serde_json::Value {
    serde_json::from_str(text).unwrap()
}

#[test]
fn normalizes_relative_specifier_against_referer_directory() {
    let url = parse_url("./foo", "file:///a/b/c.js").unwrap();
    assert_eq!(url.text, "file:///a/b/foo");
    assert_eq!(url.scheme, "file");
}

#[test]
fn normalizes_absolute_specifier_unchanged() {
    let url = parse_url("file:///x/y.ts", "file:///a/b/c.js").unwrap();
    assert_eq!(url.text, "file:///x/y.ts");
    assert_eq!(url.scheme, "file");
}

#[test]
fn rejects_specifier_with_invalid_base() {
    let err = parse_url("./x", "nope").unwrap_err();
    match &err {
        FlyError::MalformedSpecifier { message } => {
            assert_eq!(message, "Could not parse ./x from nope");
        }
        other => panic!("expected MalformedSpecifier, got {:?}", other),
    }
}

#[test]
fn resolves_exact_file_with_its_contents() {
    let mut fs = FsSnapshot::new();
    fs.add_file("/a/b/foo".to_string(), "export const x = 1;".to_string());
    let manager = disk_manager();
    let module = manager
        .resovle_module("file:///a/b/foo".to_string(), referer("file:///a/b/c.js"), &fs)
        .unwrap();
    assert_eq!(module.origin_url, "file:///a/b/foo");
    assert_eq!(module.loaded_source.source, "export const x = 1;");
    assert_eq!(module.loaded_source.source_map, None);
    assert!(!module.loaded_source.is_wasm);
}

#[test]
fn resolves_ts_variant_when_exact_path_is_missing() {
    let mut fs = FsSnapshot::new();
    fs.add_file("/a/b/foo.ts".to_string(), "ts source".to_string());
    let manager = disk_manager();
    let module = manager
        .resovle_module("./foo".to_string(), referer("file:///a/b/c.js"), &fs)
        .unwrap();
    assert_eq!(module.origin_url, "file:///a/b/foo.ts");
    assert_eq!(module.loaded_source.source, "ts source");
}

#[test]
fn ts_variant_wins_over_js_variant() {
    let mut fs = FsSnapshot::new();
    fs.add_file("/a/b/foo.js".to_string(), "js source".to_string());
    fs.add_file("/a/b/foo.ts".to_string(), "ts source".to_string());
    let manager = disk_manager();
    let module = manager
        .resovle_module("./foo".to_string(), referer("file:///a/b/c.js"), &fs)
        .unwrap();
    assert_eq!(module.origin_url, "file:///a/b/foo.ts");
    assert_eq!(module.loaded_source.source, "ts source");
}

#[test]
fn resolves_js_variant_when_ts_is_missing() {
    let mut fs = FsSnapshot::new();
    fs.add_file("/a/b/foo.js".to_string(), "js source".to_string());
    let manager = disk_manager();
    let module = manager
        .resovle_module("./foo".to_string(), referer("file:///a/b/c.js"), &fs)
        .unwrap();
    assert_eq!(module.origin_url, "file:///a/b/foo.js");
    assert_eq!(module.loaded_source.source, "js source");
}

#[test]
fn unsupported_protocol_names_the_scheme() {
    let fs = FsSnapshot::new();
    let manager = disk_manager();
    let err = manager
        .resovle_module("secrets://x".to_string(), referer("file:///a/b/c.js"), &fs)
        .unwrap_err();
    match &err {
        FlyError::UnsupportedProtocol { message } => {
            assert_eq!(
                message,
                "Could not resolve secrets://x from file:///a/b/c.js: \
                 no resolvers for protocol secrets setup."
            );
        }
        other => panic!("expected UnsupportedProtocol, got {:?}", other),
    }
}

#[test]
fn exhausted_resolvers_yield_not_found_from_the_manager() {
    let fs = FsSnapshot::new();
    let manager = disk_manager();
    let err = manager
        .resovle_module("file:///missing/mod".to_string(), referer("file:///a/b/c.js"), &fs)
        .unwrap_err();
    match &err {
        FlyError::NotFound { message } => {
            assert_eq!(
                message,
                "Could not resolve file:///missing/mod from file:///a/b/c.js: \
                 exhausted all resolvers."
            );
        }
        other => panic!("expected NotFound, got {:?}", other),
    }
}

#[test]
fn first_registered_resolver_for_a_scheme_wins() {
    let fs = FsSnapshot::new();
    let manager = StandardModuleResolverManager::new(vec![
        ModuleResolver::JsonSecrets(JsonSecretsResolver::new(json_value("1"))),
        ModuleResolver::JsonSecrets(JsonSecretsResolver::new(json_value("2"))),
    ]);
    let module = manager
        .resovle_module("secrets://conf".to_string(), referer("file:///a/b/c.js"), &fs)
        .unwrap();
    assert_eq!(module.origin_url, "secrets://conf");
    assert_eq!(module.loaded_source.source, "export default JSON.stringify(`1`)");
}

#[test]
fn secrets_resolution_uses_the_normalized_url_as_origin() {
    let fs = FsSnapshot::new();
    let manager = StandardModuleResolverManager::new(vec![
        ModuleResolver::LocalDisk(LocalDiskModuleResolver::new("/".to_string())),
        ModuleResolver::JsonSecrets(JsonSecretsResolver::new(json_value("{\"a\":1}"))),
    ]);
    let module = manager
        .resovle_module("secrets://anything/here".to_string(), referer("file:///a/b/c.js"), &fs)
        .unwrap();
    assert_eq!(module.origin_url, "secrets://anything/here");
    assert_eq!(
        module.loaded_source.source,
        "export default JSON.stringify(`{\"a\":1}`)"
    );
}

#[test]
fn synthesized_module_embeds_the_json_serialization() {
    let loader = JsonSecretsLoader::new(&json_value("{\"a\":1}"));
    let loaded = loader.load_source().unwrap();
    assert_eq!(loaded.source, "export default JSON.stringify(`{\"a\":1}`)");
    assert_eq!(loaded.source_map, None);
    assert!(!loaded.is_wasm);
}

#[test]
fn synthesized_module_strips_backticks_and_nothing_else() {
    let loader = JsonSecretsLoader::new(&json_value("{\"a\":\"x`y\",\"b\":\"<&\\\"$\"}"));
    let loaded = loader.load_source().unwrap();
    assert_eq!(
        loaded.source,
        "export default JSON.stringify(`{\"a\":\"xy\",\"b\":\"<&\\\"$\"}`)"
    );
}

#[test]
fn disk_loader_fails_on_a_missing_file() {
    let fs = FsSnapshot::new();
    let loader = LocalDiskRawLoader::new("/gone".to_string(), None);
    let err = loader.load_source(&fs).unwrap_err();
    match &err {
        FlyError::LoadFailure { message } => {
            assert_eq!(message, "Could not read /gone");
        }
        other => panic!("expected LoadFailure, got {:?}", other),
    }
}

#[test]
fn disk_loader_reads_a_bound_source_map_best_effort() {
    let mut fs = FsSnapshot::new();
    fs.add_file("/m.js".to_string(), "code".to_string());
    fs.add_file("/m.js.map".to_string(), "map".to_string());
    let loader = LocalDiskRawLoader::new("/m.js".to_string(), Some("/m.js.map".to_string()));
    let loaded = loader.load_source(&fs).unwrap();
    assert_eq!(loaded.source, "code");
    assert_eq!(loaded.source_map, Some("map".to_string()));

    let mut fs2 = FsSnapshot::new();
    fs2.add_file("/m.js".to_string(), "code".to_string());
    let loaded2 = loader.load_source(&fs2).unwrap();
    assert_eq!(loaded2.source, "code");
    assert_eq!(loaded2.source_map, None);
}

#[test]
fn replace_extension_swaps_and_appends() {
    assert_eq!(replace_extension("/a/b/foo.js", "ts"), "/a/b/foo.ts");
    assert_eq!(replace_extension("/a/b/foo", "ts"), "/a/b/foo.ts");
    assert_eq!(replace_extension("/a/b.dir/foo.old.js", "ts"), "/a/b.dir/foo.old.ts");
    assert_eq!(replace_extension("/a/.hidden", "ts"), "/a/.hidden.ts");
    assert_eq!(replace_extension("/", "ts"), "/");
}

#[test]
fn snapshot_lookup_takes_the_first_entry_of_a_path() {
    let mut fs = FsSnapshot::new();
    fs.add_file("/p".to_string(), "first".to_string());
    fs.add_file("/p".to_string(), "second".to_string());
    assert_eq!(fs.lookup("/p"), Some(&"first".to_string()));
    assert_eq!(fs.lookup("/q"), None);
}

#[test]
fn resolver_protocols_are_fixed_and_lowercase() {
    let disk = LocalDiskModuleResolver::new("/".to_string());
    assert_eq!(disk.get_protocol(), "file");
    let secrets = JsonSecretsResolver::new(json_value("null"));
    assert_eq!(secrets.get_protocol(), "secrets");
}

#[test]
fn error_message_is_exposed_for_every_kind() {
    let e = FlyError::MalformedSpecifier { message: "m".to_string() };
    assert_eq!(e.message(), "m");
    let e = FlyError::UnsupportedProtocol { message: "u".to_string() };
    assert_eq!(e.message(), "u");
    let e = FlyError::NotFound { message: "n".to_string() };
    assert_eq!(e.message(), "n");
    let e = FlyError::LoadFailure { message: "l".to_string() };
    assert_eq!(e.message(), "l");
}
