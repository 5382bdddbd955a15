use manifestor::json::Json;
use manifestor::manifest::{
    empty_manifest, parse_manifest_json, resolve_version_url, FetchError,
};
use manifestor::types::{MinecraftVersion, VersionManifest};

fn s(x: &str) -> String {
    String::from(x)
}

fn jstr(x: &str) -> Json {
    Json::Str(s(x))
}

fn obj(pairs: Vec<(&str, Json)>) -> Json {
    Json::Obj(pairs.into_iter().map(|(k, v)| (s(k), v)).collect())
}

fn version_entry(id: &str, url: &str) -> Json {
    obj(vec![
        ("id", jstr(id)),
        ("sha1", jstr("0123abcd")),
        ("releaseTime", jstr("2024-01-01T00:00:00+00:00")),
        ("url", jstr(url)),
        ("type", jstr("release")),
    ])
}

fn sample_manifest_doc() -> Json {
    obj(vec![
        ("latest", obj(vec![("release", jstr("1.20.4")), ("snapshot", jstr("24w03b"))])),
        (
            "versions",
            Json::Arr(vec![
                version_entry("1.20.4", "https://example.test/1.20.4.json"),
                version_entry("24w03b", "https://example.test/24w03b.json"),
            ]),
        ),
    ])
}

#[test]
fn manifest_fields_round_trip_from_source() {
    let m = parse_manifest_json(&sample_manifest_doc()).unwrap();
    assert_eq!(m.latest_release, s("1.20.4"));
    assert_eq!(m.latest_snapshot, s("24w03b"));
    assert_eq!(m.versions.len(), 2);
    assert_eq!(
        m.versions[0],
        MinecraftVersion {
            id: s("1.20.4"),
            hash: s("0123abcd"),
            release_time: s("2024-01-01T00:00:00+00:00"),
            url: s("https://example.test/1.20.4.json"),
            version_type: s("release"),
        }
    );
    assert_eq!(m.versions[1].id, s("24w03b"));
    assert_eq!(m.versions[1].url, s("https://example.test/24w03b.json"));
}

#[test]
fn missing_latest_pointer_defaults_to_empty() {
    let doc = obj(vec![
        ("latest", obj(vec![("release", jstr("1.0"))])),
        ("versions", Json::Arr(vec![])),
    ]);
    let m = parse_manifest_json(&doc).unwrap();
    assert_eq!(m.latest_release, s("1.0"));
    assert_eq!(m.latest_snapshot, s(""));
    assert_eq!(m.versions.len(), 0);
}

#[test]
fn missing_latest_member_is_parse_error() {
    let doc = obj(vec![("versions", Json::Arr(vec![]))]);
    assert_eq!(parse_manifest_json(&doc), Err(FetchError::Parse));
}

#[test]
fn non_object_latest_is_parse_error() {
    let doc = obj(vec![("latest", jstr("1.0")), ("versions", Json::Arr(vec![]))]);
    assert_eq!(parse_manifest_json(&doc), Err(FetchError::Parse));
}

#[test]
fn non_string_latest_value_is_parse_error() {
    let doc = obj(vec![
        ("latest", obj(vec![("release", Json::Num(1))])),
        ("versions", Json::Arr(vec![])),
    ]);
    assert_eq!(parse_manifest_json(&doc), Err(FetchError::Parse));
}

#[test]
fn missing_versions_member_is_parse_error() {
    let doc = obj(vec![("latest", obj(vec![]))]);
    assert_eq!(parse_manifest_json(&doc), Err(FetchError::Parse));
}

#[test]
fn incomplete_version_entry_is_parse_error() {
    let entry = obj(vec![("id", jstr("1.0")), ("url", jstr("u"))]);
    let doc = obj(vec![("latest", obj(vec![])), ("versions", Json::Arr(vec![entry]))]);
    assert_eq!(parse_manifest_json(&doc), Err(FetchError::Parse));
}

#[test]
fn known_id_resolves_to_its_url() {
    let m = parse_manifest_json(&sample_manifest_doc()).unwrap();
    assert_eq!(
        resolve_version_url(&m, &s("24w03b")),
        Ok(s("https://example.test/24w03b.json"))
    );
}

#[test]
fn unknown_id_is_not_found() {
    let m = parse_manifest_json(&sample_manifest_doc()).unwrap();
    assert_eq!(resolve_version_url(&m, &s("9.9.9")), Err(FetchError::NotFound));
}

#[test]
fn resolution_takes_first_match() {
    let m = VersionManifest {
        latest_release: s(""),
        latest_snapshot: s(""),
        versions: vec![
            MinecraftVersion {
                id: s("dup"),
                hash: s("a"),
                release_time: s("t1"),
                url: s("first"),
                version_type: s("release"),
            },
            MinecraftVersion {
                id: s("dup"),
                hash: s("b"),
                release_time: s("t2"),
                url: s("second"),
                version_type: s("release"),
            },
        ],
    };
    assert_eq!(resolve_version_url(&m, &s("dup")), Ok(s("first")));
}

#[test]
fn degraded_manifest_is_empty() {
    let m = empty_manifest();
    assert_eq!(m.latest_release, s(""));
    assert_eq!(m.latest_snapshot, s(""));
    assert_eq!(m.versions.len(), 0);
}
