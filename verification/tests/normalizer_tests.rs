use manifestor::json::Json;
use manifestor::normalize::{extract_args, parse_version_json};
use manifestor::types::{Downloadable, ExtractionHint, NativeLibrary};

fn s(x: &str) -> String {
    String::from(x)
}

fn jstr(x: &str) -> Json {
    Json::Str(s(x))
}

fn obj(pairs: Vec<(&str, Json)>) -> Json {
    Json::Obj(pairs.into_iter().map(|(k, v)| (s(k), v)).collect())
}

#[test]
fn legacy_arguments_split_to_game() {
    let doc = obj(vec![(
        "minecraftArguments",
        jstr("--username ${auth_player_name} --version ${version_name}"),
    )]);
    let v = parse_version_json(&doc).unwrap();
    assert_eq!(
        v.arguments.game,
        vec![
            s("--username"),
            s("${auth_player_name}"),
            s("--version"),
            s("${version_name}")
        ]
    );
    assert_eq!(v.arguments.jvm, Vec::<String>::new());
}

#[test]
fn legacy_arguments_collapse_repeated_whitespace() {
    let doc = obj(vec![("minecraftArguments", jstr("  --a \t\n --b  "))]);
    let v = parse_version_json(&doc).unwrap();
    assert_eq!(v.arguments.game, vec![s("--a"), s("--b")]);
}

#[test]
fn legacy_arguments_empty_string_yields_no_tokens() {
    let doc = obj(vec![("minecraftArguments", jstr(""))]);
    let v = parse_version_json(&doc).unwrap();
    assert_eq!(v.arguments.game, Vec::<String>::new());
}

#[test]
fn new_format_mixed_array_flattens_all_values() {
    let game = Json::Arr(vec![
        jstr("--foo"),
        obj(vec![
            ("rules", Json::Arr(vec![obj(vec![("action", jstr("allow"))])])),
            ("value", jstr("--bar")),
        ]),
        obj(vec![("value", Json::Arr(vec![jstr("--baz"), jstr("--qux")]))]),
    ]);
    let doc = obj(vec![("arguments", obj(vec![("game", game)]))]);
    let v = parse_version_json(&doc).unwrap();
    assert_eq!(
        v.arguments.game,
        vec![s("--foo"), s("--bar"), s("--baz"), s("--qux")]
    );
    assert_eq!(v.arguments.jvm, Vec::<String>::new());
}

#[test]
fn new_format_takes_precedence_over_legacy() {
    let doc = obj(vec![
        ("arguments", obj(vec![("game", Json::Arr(vec![jstr("--new")]))])),
        ("minecraftArguments", jstr("--old")),
    ]);
    let v = parse_version_json(&doc).unwrap();
    assert_eq!(v.arguments.game, vec![s("--new")]);
}

#[test]
fn new_format_non_array_member_yields_no_tokens() {
    let doc = obj(vec![("arguments", obj(vec![("game", jstr("--not-a-list"))]))]);
    let v = parse_version_json(&doc).unwrap();
    assert_eq!(v.arguments.game, Vec::<String>::new());
}

#[test]
fn client_download_missing_sha1_is_dropped_whole() {
    let doc = obj(vec![(
        "downloads",
        obj(vec![(
            "client",
            obj(vec![("url", jstr("https://example.test/c.jar")), ("size", Json::Num(10))]),
        )]),
    )]);
    let v = parse_version_json(&doc).unwrap();
    assert_eq!(v.client_jar, None);
    assert_eq!(v.server_jar, None);
}

#[test]
fn complete_download_is_kept() {
    let doc = obj(vec![(
        "downloads",
        obj(vec![(
            "client",
            obj(vec![
                ("url", jstr("https://example.test/c.jar")),
                ("sha1", jstr("abc123")),
                ("size", Json::Num(10)),
            ]),
        )]),
    )]);
    let v = parse_version_json(&doc).unwrap();
    assert_eq!(
        v.client_jar,
        Some(Downloadable { url: s("https://example.test/c.jar"), sha1: s("abc123"), size: 10 })
    );
}

#[test]
fn unresolved_classifier_contributes_nothing() {
    let lib = obj(vec![
        ("name", jstr("org.lwjgl:lwjgl:2.9")),
        ("natives", obj(vec![("linux", jstr("natives-linux"))])),
        ("downloads", obj(vec![("classifiers", obj(vec![]))])),
    ]);
    let doc = obj(vec![("libraries", Json::Arr(vec![lib]))]);
    let v = parse_version_json(&doc).unwrap();
    assert_eq!(v.natives, Vec::<NativeLibrary>::new());
    assert_eq!(v.requires_extraction, Vec::<ExtractionHint>::new());
    assert_eq!(v.libraries.len(), 0);
}

#[test]
fn resolved_classifier_emits_native_and_hint() {
    let native = obj(vec![
        ("url", jstr("https://example.test/n.jar")),
        ("sha1", jstr("deadbeef")),
        ("size", Json::Num(77)),
        ("path", jstr("org/lwjgl/n.jar")),
    ]);
    let lib = obj(vec![
        ("name", jstr("org.lwjgl:lwjgl:2.9")),
        ("natives", obj(vec![("linux", jstr("natives-linux"))])),
        ("downloads", obj(vec![("classifiers", obj(vec![("natives-linux", native)]))])),
        ("extract", obj(vec![("exclude", Json::Arr(vec![jstr("META-INF/")]))])),
    ]);
    let doc = obj(vec![("libraries", Json::Arr(vec![lib]))]);
    let v = parse_version_json(&doc).unwrap();
    assert_eq!(
        v.natives,
        vec![NativeLibrary {
            name: s("org.lwjgl:lwjgl:2.9"),
            classifier: s("natives-linux"),
            url: s("https://example.test/n.jar"),
            sha1: s("deadbeef"),
            size: 77,
            path: s("org/lwjgl/n.jar"),
        }]
    );
    assert_eq!(
        v.requires_extraction,
        vec![ExtractionHint { path: s("org/lwjgl/n.jar"), requires_extraction: true }]
    );
    assert_eq!(v.libraries.len(), 0);
}

#[test]
fn native_without_exclusion_list_needs_no_extraction() {
    let native = obj(vec![
        ("url", jstr("u")),
        ("sha1", jstr("h")),
        ("size", Json::Num(1)),
        ("path", jstr("p")),
    ]);
    let lib = obj(vec![
        ("name", jstr("n")),
        ("natives", obj(vec![("osx", jstr("natives-osx"))])),
        ("downloads", obj(vec![("classifiers", obj(vec![("natives-osx", native)]))])),
    ]);
    let doc = obj(vec![("libraries", Json::Arr(vec![lib]))]);
    let v = parse_version_json(&doc).unwrap();
    assert_eq!(v.requires_extraction.len(), 1);
    assert!(!v.requires_extraction[0].requires_extraction);
}

#[test]
fn plain_artifact_becomes_library() {
    let lib = obj(vec![
        ("name", jstr("com.example:dep:1")),
        (
            "downloads",
            obj(vec![(
                "artifact",
                obj(vec![
                    ("url", jstr("https://example.test/d.jar")),
                    ("sha1", jstr("ff")),
                    ("size", Json::Num(5)),
                    ("path", jstr("com/example/d.jar")),
                ]),
            )]),
        ),
    ]);
    let doc = obj(vec![("libraries", Json::Arr(vec![lib]))]);
    let v = parse_version_json(&doc).unwrap();
    assert_eq!(v.libraries.len(), 1);
    assert_eq!(v.libraries[0].name, s("com.example:dep:1"));
    assert_eq!(v.libraries[0].url, Some(s("https://example.test/d.jar")));
    assert_eq!(v.libraries[0].sha1, Some(s("ff")));
    assert_eq!(v.libraries[0].size, Some(5));
    assert_eq!(v.libraries[0].path, Some(s("com/example/d.jar")));
    assert_eq!(v.natives.len(), 0);
}

#[test]
fn non_object_natives_falls_back_to_artifact() {
    let lib = obj(vec![
        ("name", jstr("n")),
        ("natives", jstr("not-a-map")),
        ("downloads", obj(vec![("artifact", obj(vec![("url", jstr("u"))]))])),
    ]);
    let doc = obj(vec![("libraries", Json::Arr(vec![lib]))]);
    let v = parse_version_json(&doc).unwrap();
    assert_eq!(v.libraries.len(), 1);
    assert_eq!(v.libraries[0].url, Some(s("u")));
    assert_eq!(v.libraries[0].sha1, None);
}

#[test]
fn entry_matching_neither_shape_is_dropped() {
    let lib = obj(vec![("name", jstr("bare"))]);
    let doc = obj(vec![("libraries", Json::Arr(vec![lib]))]);
    let v = parse_version_json(&doc).unwrap();
    assert_eq!(v.libraries.len(), 0);
    assert_eq!(v.natives.len(), 0);
    assert_eq!(v.requires_extraction.len(), 0);
}

#[test]
fn non_object_document_is_an_error() {
    assert!(parse_version_json(&Json::Num(5)).is_err());
    assert!(parse_version_json(&jstr("1.20.4")).is_err());
    assert!(parse_version_json(&Json::Arr(vec![])).is_err());
    assert!(parse_version_json(&Json::Null).is_err());
    assert!(parse_version_json(&obj(vec![])).is_ok());
}

#[test]
fn empty_document_normalizes_to_defaults() {
    let doc = obj(vec![]);
    let v = parse_version_json(&doc).unwrap();
    assert_eq!(v.id, s(""));
    assert_eq!(v.release_time, None);
    assert_eq!(v.java_version, None);
    assert_eq!(v.client_jar, None);
    assert_eq!(v.server_jar, None);
    assert_eq!(v.asset_index, None);
    assert_eq!(v.libraries.len(), 0);
    assert_eq!(v.natives.len(), 0);
    assert_eq!(v.arguments.game, Vec::<String>::new());
    assert_eq!(v.arguments.jvm, Vec::<String>::new());
    assert_eq!(v.requires_extraction.len(), 0);
}

#[test]
fn scalar_fields_are_read() {
    let doc = obj(vec![
        ("id", jstr("1.20.4")),
        ("releaseTime", jstr("2023-12-07T12:56:20+00:00")),
        ("javaVersion", obj(vec![("majorVersion", Json::Num(17))])),
    ]);
    let v = parse_version_json(&doc).unwrap();
    assert_eq!(v.id, s("1.20.4"));
    assert_eq!(v.release_time, Some(s("2023-12-07T12:56:20+00:00")));
    assert_eq!(v.java_version, Some(17));
}

#[test]
fn java_version_keeps_low_byte() {
    let doc = obj(vec![("javaVersion", obj(vec![("majorVersion", Json::Num(300))]))]);
    let v = parse_version_json(&doc).unwrap();
    assert_eq!(v.java_version, Some(44));
}

#[test]
fn asset_index_fields_default_individually() {
    let doc = obj(vec![("assetIndex", obj(vec![("id", jstr("12"))]))]);
    let v = parse_version_json(&doc).unwrap();
    let ai = v.asset_index.unwrap();
    assert_eq!(ai.id, s("12"));
    assert_eq!(ai.url, s(""));
    assert_eq!(ai.sha1, s(""));
    assert_eq!(ai.size, 0);
}

#[test]
fn absent_asset_index_is_none() {
    let doc = obj(vec![("id", jstr("x"))]);
    let v = parse_version_json(&doc).unwrap();
    assert_eq!(v.asset_index, None);
}

#[test]
fn extract_args_skips_valueless_objects_and_non_strings() {
    let list = Json::Arr(vec![
        jstr("--keep"),
        obj(vec![("rules", Json::Arr(vec![]))]),
        Json::Num(7),
        Json::Null,
        obj(vec![("value", Json::Arr(vec![jstr("--x"), Json::Num(1), jstr("--y")]))]),
    ]);
    assert_eq!(extract_args(Some(&list)), vec![s("--keep"), s("--x"), s("--y")]);
}

#[test]
fn extract_args_of_nothing_is_empty() {
    assert_eq!(extract_args(None), Vec::<String>::new());
    assert_eq!(extract_args(Some(&jstr("not-a-list"))), Vec::<String>::new());
}

#[test]
fn json_member_lookup_takes_first_match() {
    let doc = obj(vec![("k", jstr("first")), ("k", jstr("second"))]);
    let found = doc.get(&s("k")).unwrap();
    assert_eq!(found.as_str(), Some(&s("first")));
    assert!(doc.get(&s("missing")).is_none());
    assert_eq!(Json::Num(3).as_u64(), Some(3));
    assert_eq!(jstr("x").as_u64(), None);
}

#[test]
fn normalizer_is_idempotent() {
    let native = obj(vec![
        ("url", jstr("u")),
        ("sha1", jstr("h")),
        ("size", Json::Num(1)),
        ("path", jstr("p")),
    ]);
    let lib = obj(vec![
        ("name", jstr("n")),
        ("natives", obj(vec![("windows", jstr("natives-windows"))])),
        ("downloads", obj(vec![("classifiers", obj(vec![("natives-windows", native)]))])),
    ]);
    let doc = obj(vec![
        ("id", jstr("1.8.9")),
        ("minecraftArguments", jstr("--a --b")),
        ("libraries", Json::Arr(vec![lib])),
    ]);
    let first = parse_version_json(&doc).unwrap();
    let second = parse_version_json(&doc).unwrap();
    assert_eq!(first, second);
}
