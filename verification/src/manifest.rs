//! The top-level manifest: parsing the upstream document and resolving a
//! version identifier to its detail-document address.
//!
//! Unlike the detail normalizer, manifest parsing is strict: the document
//! must carry a `latest` object whose members are all strings and a
//! `versions` array whose entries each carry all five summary fields as
//! strings; anything else is a parse failure.

use vstd::prelude::*;

use crate::json::{spec_get, spec_get_str, Json};
use crate::types::{
    MinecraftVersion, MinecraftVersionModel, VersionManifest, VersionManifestModel, version_views,
};
use crate::normalize::spec_str_or_empty;

verus! {

/// Why a lookup could not be served: the upstream transport failed, its
/// response did not parse, or the requested version is not listed.
#[derive(Debug, Clone, Copy, PartialEq, Eq, Structural)]
pub enum FetchError {
    Transport,
    Parse,
    NotFound,
}

/// Whether every member value of an object is a string.
pub open spec fn spec_all_strings(members: Seq<(String, Json)>) -> bool {
    forall|i: int| 0 <= i < members.len() ==> members[i].1 is Str
}

/// One summary entry: all five fields must be present as strings.
pub open spec fn spec_version_entry(v: Json) -> Option<MinecraftVersionModel> {
    match (
        spec_get_str(v, "id"@),
        spec_get_str(v, "sha1"@),
        spec_get_str(v, "releaseTime"@),
        spec_get_str(v, "url"@),
        spec_get_str(v, "type"@),
    ) {
        (Some(id), Some(hash), Some(release_time), Some(url), Some(version_type)) => Some(
            MinecraftVersionModel { id, hash, release_time, url, version_type },
        ),
        _ => None,
    }
}

/// Summary models of the parseable entries, in order.
pub open spec fn spec_version_models(vs: Seq<Json>) -> Seq<MinecraftVersionModel>
    decreases vs.len(),
{
    if vs.len() == 0 {
        Seq::empty()
    } else {
        spec_version_models(vs.drop_last()) + match spec_version_entry(vs.last()) {
            Some(m) => seq![m],
            None => Seq::empty(),
        }
    }
}

/// The `latest` member, when it is an object.
pub open spec fn spec_latest_obj(doc: Json) -> Option<Seq<(String, Json)>> {
    match spec_get(doc, "latest"@) {
        Some(Json::Obj(members)) => Some(members@),
        _ => None,
    }
}

/// The `versions` member, when it is an array.
pub open spec fn spec_versions_arr(doc: Json) -> Option<Seq<Json>> {
    match spec_get(doc, "versions"@) {
        Some(Json::Arr(vs)) => Some(vs@),
        _ => None,
    }
}

/// A manifest document parses exactly when `latest` is an all-string
/// object and every entry of the `versions` array is a complete summary.
pub open spec fn spec_manifest_valid(doc: Json) -> bool {
    &&& spec_latest_obj(doc) matches Some(lm) && spec_all_strings(lm)
    &&& spec_versions_arr(doc) matches Some(vs) && (forall|i: int|
        0 <= i < vs.len() ==> spec_version_entry(#[trigger] vs[i]) is Some)
}

/// One of the two `latest` pointers, defaulting to the empty string when
/// its key is absent.
pub open spec fn spec_latest_field(doc: Json, key: Seq<char>) -> Seq<char> {
    match spec_get(doc, "latest"@) {
        Some(lv) => spec_str_or_empty(lv, key),
        None => Seq::empty(),
    }
}

/// The manifest a valid document denotes.
pub open spec fn spec_parse_manifest(doc: Json) -> VersionManifestModel {
    VersionManifestModel {
        latest_release: spec_latest_field(doc, "release"@),
        latest_snapshot: spec_latest_field(doc, "snapshot"@),
        versions: match spec_versions_arr(doc) {
            Some(vs) => spec_version_models(vs),
            None => Seq::empty(),
        },
    }
}

fn parse_version_entry(v: &Json) -> (r: Option<MinecraftVersion>)
    ensures
        match r {
            Some(m) => spec_version_entry(*v) == Some(m@),
            None => spec_version_entry(*v) is None,
        },
{
    let k_id = String::from_str("id");
    let k_sha1 = String::from_str("sha1");
    let k_release_time = String::from_str("releaseTime");
    let k_url = String::from_str("url");
    let k_type = String::from_str("type");
    match (
        crate::normalize::get_str_clone(v, &k_id),
        crate::normalize::get_str_clone(v, &k_sha1),
        crate::normalize::get_str_clone(v, &k_release_time),
        crate::normalize::get_str_clone(v, &k_url),
        crate::normalize::get_str_clone(v, &k_type),
    ) {
        (Some(id), Some(hash), Some(release_time), Some(url), Some(version_type)) => Some(
            MinecraftVersion { id, hash, release_time, url, version_type },
        ),
        _ => None,
    }
}

/// Parses the upstream top-level manifest document.
///
/// Succeeds exactly on valid documents (`spec_manifest_valid`), returning
/// the manifest they denote; any other shape is a parse failure.
#[verifier::loop_isolation(false)]
pub fn parse_manifest_json(doc: &Json) -> (r: Result<VersionManifest, FetchError>)
    ensures
        spec_manifest_valid(*doc) ==> (r matches Ok(m) && m@ == spec_parse_manifest(*doc)),
        !spec_manifest_valid(*doc) ==> r matches Err(FetchError::Parse),
{
    let k_latest = String::from_str("latest");
    let k_versions = String::from_str("versions");
    let k_release = String::from_str("release");
    let k_snapshot = String::from_str("snapshot");
    let latest_val = match doc.get(&k_latest) {
        Some(v) => v,
        None => {
            return Err(FetchError::Parse);
        },
    };
    let latest_members = match latest_val {
        Json::Obj(members) => members,
        _ => {
            return Err(FetchError::Parse);
        },
    };
    let n = latest_members.len();
    let mut i: usize = 0;
    while i < n
        invariant
            i <= n,
            forall|j: int| 0 <= j < i ==> latest_members@[j].1 is Str,
        decreases n - i,
    {
        match &latest_members[i].1 {
            Json::Str(_) => {},
            _ => {
                return Err(FetchError::Parse);
            },
        }
        i += 1;
    }
    let latest_release = crate::normalize::get_str_or_empty(latest_val, &k_release);
    let latest_snapshot = crate::normalize::get_str_or_empty(latest_val, &k_snapshot);
    let versions_arr = match doc.get(&k_versions) {
        Some(v) => match v {
            Json::Arr(vs) => vs,
            _ => {
                return Err(FetchError::Parse);
            },
        },
        None => {
            return Err(FetchError::Parse);
        },
    };
    let m = versions_arr.len();
    let mut versions: Vec<MinecraftVersion> = Vec::new();
    let mut k: usize = 0;
    proof {
        assert(versions_arr@.take(0) =~= Seq::<Json>::empty());
        assert(version_views(versions@) =~= Seq::<MinecraftVersionModel>::empty());
    }
    while k < m
        invariant
            k <= m,
            version_views(versions@) == spec_version_models(versions_arr@.take(k as int)),
            forall|j: int| 0 <= j < k ==> spec_version_entry(#[trigger] versions_arr@[j]) is Some,
        decreases m - k,
    {
        proof {
            assert(versions_arr@.take(k + 1).drop_last() =~= versions_arr@.take(k as int));
            assert(versions_arr@.take(k + 1).last() == versions_arr@[k as int]);
        }
        match parse_version_entry(&versions_arr[k]) {
            Some(v) => {
                let ghost before = version_views(versions@);
                versions.push(v);
                proof {
                    assert(version_views(versions@) =~= before + seq![versions@.last()@]);
                }
            },
            None => {
                return Err(FetchError::Parse);
            },
        }
        k += 1;
    }
    proof {
        assert(versions_arr@.take(m as int) =~= versions_arr@);
    }
    let result = VersionManifest { latest_release, latest_snapshot, versions };
    proof {
        assert(result@ =~= spec_parse_manifest(*doc));
    }
    Ok(result)
}

/// The degraded manifest substituted when the upstream feed cannot be
/// reached: empty pointers, no versions.
pub fn empty_manifest() -> (r: VersionManifest)
    ensures
        r@.latest_release == Seq::<char>::empty(),
        r@.latest_snapshot == Seq::<char>::empty(),
        r@.versions == Seq::<MinecraftVersionModel>::empty(),
{
    let r = VersionManifest {
        latest_release: String::new(),
        latest_snapshot: String::new(),
        versions: Vec::new(),
    };
    proof {
        assert(r@.versions =~= Seq::<MinecraftVersionModel>::empty());
    }
    r
}

proof fn lemma_version_models_elementwise(vs: Seq<Json>)
    requires
        forall|i: int| 0 <= i < vs.len() ==> spec_version_entry(#[trigger] vs[i]) is Some,
    ensures
        spec_version_models(vs).len() == vs.len(),
        forall|i: int|
            0 <= i < vs.len() ==> Some(#[trigger] spec_version_models(vs)[i])
                == spec_version_entry(vs[i]),
    decreases vs.len(),
{
    if vs.len() > 0 {
        assert(forall|i: int|
            0 <= i < vs.drop_last().len() ==> #[trigger] vs.drop_last()[i] == vs[i]);
        lemma_version_models_elementwise(vs.drop_last());
    }
}

/// Round trip of the manifest list: on every valid top-level document, each
/// parsed summary's fields are exactly the strings the source entry holds,
/// character for character, entry for entry.
pub proof fn lemma_manifest_round_trip(doc: Json)
    requires
        spec_manifest_valid(doc),
    ensures
        ({
            let m = spec_parse_manifest(doc);
            match spec_versions_arr(doc) {
                Some(vs) => {
                    &&& m.versions.len() == vs.len()
                    &&& forall|i: int|
                        0 <= i < vs.len() ==> {
                            &&& spec_get_str(#[trigger] vs[i], "id"@) == Some(m.versions[i].id)
                            &&& spec_get_str(vs[i], "sha1"@) == Some(m.versions[i].hash)
                            &&& spec_get_str(vs[i], "releaseTime"@) == Some(
                                m.versions[i].release_time,
                            )
                            &&& spec_get_str(vs[i], "url"@) == Some(m.versions[i].url)
                            &&& spec_get_str(vs[i], "type"@) == Some(m.versions[i].version_type)
                        }
                },
                None => true,
            }
        }),
{
    match spec_versions_arr(doc) {
        Some(vs) => {
            lemma_version_models_elementwise(vs);
        },
        None => {},
    }
}

/// First summary whose identifier equals `id`, scanning in listed order.
pub open spec fn spec_find_version(vs: Seq<MinecraftVersionModel>, id: Seq<char>) -> Option<
    MinecraftVersionModel,
>
    decreases vs.len(),
{
    if vs.len() == 0 {
        None
    } else if vs[0].id == id {
        Some(vs[0])
    } else {
        spec_find_version(vs.drop_first(), id)
    }
}

/// Resolves a version identifier against a manifest by exact match.
///
/// Returns the detail-document address of the first listed version with
/// that identifier; an identifier absent from the list is `NotFound`, and
/// no other outcome exists, so no detail fetch is warranted for it.
#[verifier::loop_isolation(false)]
pub fn resolve_version_url(manifest: &VersionManifest, version_id: &String) -> (r: Result<
    String,
    FetchError,
>)
    ensures
        match spec_find_version(manifest@.versions, version_id@) {
            Some(m) => r matches Ok(u) && u@ == m.url,
            None => r matches Err(FetchError::NotFound),
        },
{
    let n = manifest.versions.len();
    let mut i: usize = 0;
    proof {
        assert(manifest@.versions.skip(0) =~= manifest@.versions);
    }
    while i < n
        invariant
            i <= n,
            spec_find_version(manifest@.versions, version_id@) == spec_find_version(
                manifest@.versions.skip(i as int),
                version_id@,
            ),
        decreases n - i,
    {
        proof {
            assert(manifest@.versions.skip(i as int)[0] == manifest@.versions[i as int]);
            assert(manifest@.versions.skip(i as int).drop_first() =~= manifest@.versions.skip(
                i + 1,
            ));
        }
        if manifest.versions[i].id == *version_id {
            return Ok(manifest.versions[i].url.clone());
        }
        i += 1;
    }
    proof {
        assert(manifest@.versions.skip(n as int) =~= Seq::<MinecraftVersionModel>::empty());
    }
    Err(FetchError::NotFound)
}

} // verus!
