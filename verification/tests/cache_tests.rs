use manifestor::cache::{
    ManifestCache, VersionCache, MANIFEST_TTL_MILLIS, VERSION_TTL_MILLIS,
};
use manifestor::json::Json;
use manifestor::manifest::parse_manifest_json;
use manifestor::normalize::parse_version_json;
use manifestor::types::{NormalizedVersion, VersionManifest};

fn s(x: &str) -> String {
    String::from(x)
}

fn jstr(x: &str) -> Json {
    Json::Str(s(x))
}

fn obj(pairs: Vec<(&str, Json)>) -> Json {
    Json::Obj(pairs.into_iter().map(|(k, v)| (s(k), v)).collect())
}

fn sample_manifest() -> VersionManifest {
    let doc = obj(vec![
        ("latest", obj(vec![("release", jstr("1.0")), ("snapshot", jstr("s1"))])),
        ("versions", Json::Arr(vec![])),
    ]);
    parse_manifest_json(&doc).unwrap()
}

fn sample_version(id: &str) -> NormalizedVersion {
    let doc = obj(vec![("id", jstr(id)), ("minecraftArguments", jstr("--a --b"))]);
    parse_version_json(&doc).unwrap()
}

#[test]
fn empty_manifest_cache_misses() {
    let cache = ManifestCache::new();
    assert!(cache.lookup(0).is_none());
}

#[test]
fn manifest_cache_serves_fresh_value_unchanged() {
    let mut cache = ManifestCache::new();
    let stored = sample_manifest();
    cache.store(sample_manifest(), 1_000);
    let read = cache.lookup(1_000 + MANIFEST_TTL_MILLIS - 1).unwrap();
    assert_eq!(read, stored);
}

#[test]
fn manifest_cache_misses_once_expired() {
    let mut cache = ManifestCache::new();
    cache.store(sample_manifest(), 1_000);
    assert!(cache.lookup(1_000 + MANIFEST_TTL_MILLIS).is_none());
    assert!(cache.lookup(1_000 + MANIFEST_TTL_MILLIS + 1).is_none());
}

#[test]
fn manifest_cache_last_writer_wins() {
    let mut cache = ManifestCache::new();
    cache.store(sample_manifest(), 1_000);
    let mut newer = sample_manifest();
    newer.latest_release = s("2.0");
    cache.store(newer, 5_000);
    let read = cache.lookup(5_001).unwrap();
    assert_eq!(read.latest_release, s("2.0"));
}

#[test]
fn empty_version_cache_misses() {
    let cache = VersionCache::new();
    assert!(cache.lookup(&s("1.0"), 0).is_none());
}

#[test]
fn version_cache_serves_fresh_entry_unchanged() {
    let mut cache = VersionCache::new();
    let stored = sample_version("1.0");
    cache.insert(s("1.0"), sample_version("1.0"), 2_000);
    let read = cache.lookup(&s("1.0"), 2_000 + VERSION_TTL_MILLIS - 1).unwrap();
    assert_eq!(read, stored);
}

#[test]
fn version_cache_misses_once_expired() {
    let mut cache = VersionCache::new();
    cache.insert(s("1.0"), sample_version("1.0"), 2_000);
    assert!(cache.lookup(&s("1.0"), 2_000 + VERSION_TTL_MILLIS).is_none());
    assert!(cache.lookup(&s("1.0"), 2_000 + VERSION_TTL_MILLIS + 1).is_none());
}

#[test]
fn version_cache_entries_are_independent() {
    let mut cache = VersionCache::new();
    cache.insert(s("old"), sample_version("old"), 0);
    cache.insert(s("new"), sample_version("new"), VERSION_TTL_MILLIS);
    let now = VERSION_TTL_MILLIS + 1;
    assert!(cache.lookup(&s("old"), now).is_none());
    let fresh = cache.lookup(&s("new"), now).unwrap();
    assert_eq!(fresh.id, s("new"));
}

#[test]
fn version_cache_insert_replaces_same_id() {
    let mut cache = VersionCache::new();
    cache.insert(s("1.0"), sample_version("first"), 0);
    cache.insert(s("1.0"), sample_version("second"), 10);
    let read = cache.lookup(&s("1.0"), 11).unwrap();
    assert_eq!(read.id, s("second"));
}

#[test]
fn version_cache_miss_for_unknown_id() {
    let mut cache = VersionCache::new();
    cache.insert(s("1.0"), sample_version("1.0"), 0);
    assert!(cache.lookup(&s("2.0"), 1).is_none());
}
