//! The version-detail normalizer.
//!
//! Maps an arbitrary detail document onto the fixed `NormalizedVersion`
//! schema. Only one malformed mandatory shape exists — a document whose top
//! level is not an object — and it alone is a signaled failure; on object
//! documents the mapping is total, missing or ill-shaped optional structure
//! yielding defaults or omitted entities. Each rule of the mapping is
//! stated by a spec function, and the executable normalizer is proved to
//! compute exactly that mapping.

use vstd::prelude::*;

use crate::json::{spec_as_str, spec_as_u64, spec_get, spec_get_str, Json};
use crate::types::{
    AssetIndex, AssetIndexModel, Downloadable, DownloadableModel, ExtractionHint,
    ExtractionHintModel, Library, LibraryModel, NativeLibrary, NativeLibraryModel,
    NormalizedArguments, NormalizedArgumentsModel, NormalizedVersion, NormalizedVersionModel,
    hint_views, library_views, native_views, opt_asset_index_view, opt_downloadable_view,
};

verus! {

/// String under `key`, or the empty string when absent or not a string.
pub open spec fn spec_str_or_empty(j: Json, key: Seq<char>) -> Seq<char> {
    match spec_get_str(j, key) {
        Some(s) => s,
        None => Seq::empty(),
    }
}

/// Number under `key`, when present and numeric.
pub open spec fn spec_get_u64(j: Json, key: Seq<char>) -> Option<u64> {
    match spec_get(j, key) {
        Some(v) => spec_as_u64(v),
        None => None,
    }
}

/// Two member lookups in a row.
pub open spec fn spec_get2(j: Json, key1: Seq<char>, key2: Seq<char>) -> Option<Json> {
    match spec_get(j, key1) {
        Some(v) => spec_get(v, key2),
        None => None,
    }
}

/// The version identifier: the `id` member, defaulting to the empty string.
pub open spec fn spec_id(doc: Json) -> Seq<char> {
    spec_str_or_empty(doc, "id"@)
}

/// The release timestamp, kept only when present as a string.
pub open spec fn spec_release_time(doc: Json) -> Option<Seq<char>> {
    spec_get_str(doc, "releaseTime"@)
}

/// The required Java major version: `javaVersion.majorVersion`, carried in
/// a single byte, so narrowed to the low byte of the declared number.
pub open spec fn spec_java_version(doc: Json) -> Option<u8> {
    match spec_get2(doc, "javaVersion"@, "majorVersion"@) {
        Some(v) => match spec_as_u64(v) {
            Some(n) => Some((n % 256) as u8),
            None => None,
        },
        None => None,
    }
}

/// A `Downloadable` out of one object: present only when `url`, `sha1` and
/// `size` are all present with the right shapes; never half-filled.
pub open spec fn spec_downloadable(j: Json) -> Option<DownloadableModel> {
    match (spec_get_str(j, "url"@), spec_get_str(j, "sha1"@), spec_get_u64(j, "size"@)) {
        (Some(url), Some(sha1), Some(size)) => Some(DownloadableModel { url, sha1, size }),
        _ => None,
    }
}

/// Artifact under `downloads.<which>`, as a whole-or-nothing `Downloadable`.
pub open spec fn spec_download_entry(doc: Json, which: Seq<char>) -> Option<DownloadableModel> {
    match spec_get2(doc, "downloads"@, which) {
        Some(entry) => spec_downloadable(entry),
        None => None,
    }
}

/// The asset index: present exactly when the `assetIndex` member exists;
/// its fields default individually.
pub open spec fn spec_asset_index(doc: Json) -> Option<AssetIndexModel> {
    match spec_get(doc, "assetIndex"@) {
        Some(a) => Some(
            AssetIndexModel {
                id: spec_str_or_empty(a, "id"@),
                url: spec_str_or_empty(a, "url"@),
                sha1: spec_str_or_empty(a, "sha1"@),
                size: match spec_get_u64(a, "size"@) {
                    Some(n) => n,
                    None => 0,
                },
            },
        ),
        None => None,
    }
}

/// The dependency entries: the `libraries` member when it is an array.
pub open spec fn spec_libs_seq(doc: Json) -> Seq<Json> {
    match spec_get(doc, "libraries"@) {
        Some(Json::Arr(libs)) => libs@,
        _ => Seq::empty(),
    }
}

/// A dependency's declared name, defaulting to the empty string.
pub open spec fn spec_lib_name(lib: Json) -> Seq<char> {
    spec_str_or_empty(lib, "name"@)
}

/// The platform-to-classifier map of a dependency entry, when it declares
/// one; its presence routes the entry to the native branch.
pub open spec fn spec_natives_map(lib: Json) -> Option<Seq<(String, Json)>> {
    match spec_get(lib, "natives"@) {
        Some(Json::Obj(members)) => Some(members@),
        _ => None,
    }
}

/// Whether the entry carries an exclusion list under its extraction
/// directive; this is the only thing that makes extraction required.
pub open spec fn spec_extract_flag(lib: Json) -> bool {
    spec_get2(lib, "extract"@, "exclude"@) is Some
}

/// The classifier artifact registered under `downloads.classifiers.<cls>`.
pub open spec fn spec_classifier_entry(lib: Json, cls: Seq<char>) -> Option<Json> {
    match spec_get2(lib, "downloads"@, "classifiers"@) {
        Some(classifiers) => spec_get(classifiers, cls),
        None => None,
    }
}

/// The native artifact that one platform entry of the classifier map
/// resolves to: the classifier value must be a string, it must be indexed
/// under `downloads.classifiers`, and the artifact there must carry all of
/// `url`, `sha1`, `size` and `path`; otherwise the entry is dropped whole.
pub open spec fn spec_native_of(lib: Json, classifier_value: Json) -> Option<NativeLibraryModel> {
    match spec_as_str(classifier_value) {
        Some(cls) => match spec_classifier_entry(lib, cls) {
            Some(native) => match (
                spec_get_str(native, "url"@),
                spec_get_str(native, "sha1"@),
                spec_get_u64(native, "size"@),
                spec_get_str(native, "path"@),
            ) {
                (Some(url), Some(sha1), Some(size), Some(path)) => Some(
                    NativeLibraryModel {
                        name: spec_lib_name(lib),
                        classifier: cls,
                        url,
                        sha1,
                        size,
                        path,
                    },
                ),
                _ => None,
            },
            None => None,
        },
        None => None,
    }
}

/// Native artifacts resolved by a prefix of one dependency's classifier
/// map, in map order.
pub open spec fn spec_natives_of_entries(lib: Json, entries: Seq<(String, Json)>) -> Seq<
    NativeLibraryModel,
>
    decreases entries.len(),
{
    if entries.len() == 0 {
        Seq::empty()
    } else {
        spec_natives_of_entries(lib, entries.drop_last()) + match spec_native_of(
            lib,
            entries.last().1,
        ) {
            Some(m) => seq![m],
            None => Seq::empty(),
        }
    }
}

/// All native artifacts one dependency entry contributes.
pub open spec fn spec_natives_of_lib(lib: Json) -> Seq<NativeLibraryModel> {
    match spec_natives_map(lib) {
        Some(entries) => spec_natives_of_entries(lib, entries),
        None => Seq::empty(),
    }
}

/// Extraction hints emitted by a prefix of one dependency's classifier
/// map: one beside each resolved native artifact, sharing its path.
pub open spec fn spec_hints_of_entries(lib: Json, entries: Seq<(String, Json)>) -> Seq<
    ExtractionHintModel,
>
    decreases entries.len(),
{
    if entries.len() == 0 {
        Seq::empty()
    } else {
        spec_hints_of_entries(lib, entries.drop_last()) + match spec_native_of(
            lib,
            entries.last().1,
        ) {
            Some(m) => seq![
                ExtractionHintModel { path: m.path, requires_extraction: spec_extract_flag(lib) },
            ],
            None => Seq::empty(),
        }
    }
}

/// All extraction hints one dependency entry contributes.
pub open spec fn spec_hints_of_lib(lib: Json) -> Seq<ExtractionHintModel> {
    match spec_natives_map(lib) {
        Some(entries) => spec_hints_of_entries(lib, entries),
        None => Seq::empty(),
    }
}

/// The direct platform-independent artifact reading of a dependency entry,
/// with its individually optional fields.
pub open spec fn spec_artifact_library(lib: Json) -> Option<LibraryModel> {
    match spec_get2(lib, "downloads"@, "artifact"@) {
        Some(artifact) => Some(
            LibraryModel {
                name: spec_lib_name(lib),
                url: spec_get_str(artifact, "url"@),
                sha1: spec_get_str(artifact, "sha1"@),
                size: spec_get_u64(artifact, "size"@),
                path: spec_get_str(artifact, "path"@),
            },
        ),
        None => None,
    }
}

/// The platform-independent reading of a dependency entry: taken only when
/// the entry declares no classifier map and does declare a direct artifact.
/// An entry matching neither shape contributes nothing.
pub open spec fn spec_library_of(lib: Json) -> Option<LibraryModel> {
    if spec_natives_map(lib) is Some {
        None
    } else {
        spec_artifact_library(lib)
    }
}

/// Platform-independent libraries contributed by a sequence of entries.
pub open spec fn spec_libraries(libs: Seq<Json>) -> Seq<LibraryModel>
    decreases libs.len(),
{
    if libs.len() == 0 {
        Seq::empty()
    } else {
        spec_libraries(libs.drop_last()) + match spec_library_of(libs.last()) {
            Some(m) => seq![m],
            None => Seq::empty(),
        }
    }
}

/// Native artifacts contributed by a sequence of entries.
pub open spec fn spec_natives(libs: Seq<Json>) -> Seq<NativeLibraryModel>
    decreases libs.len(),
{
    if libs.len() == 0 {
        Seq::empty()
    } else {
        spec_natives(libs.drop_last()) + spec_natives_of_lib(libs.last())
    }
}

/// Extraction hints contributed by a sequence of entries.
pub open spec fn spec_hints(libs: Seq<Json>) -> Seq<ExtractionHintModel>
    decreases libs.len(),
{
    if libs.len() == 0 {
        Seq::empty()
    } else {
        spec_hints(libs.drop_last()) + spec_hints_of_lib(libs.last())
    }
}

/// Unicode whitespace, as the legacy argument string is tokenized by it.
pub open spec fn spec_is_space(c: char) -> bool {
    let u = c as u32;
    u == 0x20 || (0x09 <= u && u <= 0x0D) || u == 0x85 || u == 0xA0 || u == 0x1680 || (0x2000 <= u
        && u <= 0x200A) || u == 0x2028 || u == 0x2029 || u == 0x202F || u == 0x205F || u == 0x3000
}

/// Whitespace tokenization, one character at a time: `cur` is the token
/// being accumulated; a space closes it, the end of the string flushes it,
/// and empty tokens are never emitted.
pub open spec fn spec_split_acc(s: Seq<char>, cur: Seq<char>) -> Seq<Seq<char>>
    decreases s.len(),
{
    if s.len() == 0 {
        if cur.len() == 0 {
            Seq::empty()
        } else {
            seq![cur]
        }
    } else if spec_is_space(s[0]) {
        if cur.len() == 0 {
            spec_split_acc(s.drop_first(), Seq::empty())
        } else {
            seq![cur] + spec_split_acc(s.drop_first(), Seq::empty())
        }
    } else {
        spec_split_acc(s.drop_first(), cur.push(s[0]))
    }
}

/// The maximal whitespace-free tokens of `s`, in order.
pub open spec fn spec_split_ws(s: Seq<char>) -> Seq<Seq<char>> {
    spec_split_acc(s, Seq::empty())
}

/// String elements of an array, in order; non-strings are skipped.
pub open spec fn spec_str_items(items: Seq<Json>) -> Seq<Seq<char>>
    decreases items.len(),
{
    if items.len() == 0 {
        Seq::empty()
    } else {
        spec_str_items(items.drop_last()) + match spec_as_str(items.last()) {
            Some(s) => seq![s],
            None => Seq::empty(),
        }
    }
}

/// Tokens one entry of a new-format argument list contributes: a bare
/// string stands for itself; an object contributes its `value`, a single
/// string or a list of strings, with any attached rules ignored; anything
/// else contributes nothing.
pub open spec fn spec_arg_tokens(entry: Json) -> Seq<Seq<char>> {
    match entry {
        Json::Str(s) => seq![s@],
        Json::Obj(_) => match spec_get(entry, "value"@) {
            Some(Json::Str(v)) => seq![v@],
            Some(Json::Arr(items)) => spec_str_items(items@),
            _ => Seq::empty(),
        },
        _ => Seq::empty(),
    }
}

/// Tokens of a whole new-format argument list.
pub open spec fn spec_args_list(entries: Seq<Json>) -> Seq<Seq<char>>
    decreases entries.len(),
{
    if entries.len() == 0 {
        Seq::empty()
    } else {
        spec_args_list(entries.drop_last()) + spec_arg_tokens(entries.last())
    }
}

/// Tokens of one optional argument member: only an array contributes.
pub open spec fn spec_args_of(v: Option<Json>) -> Seq<Seq<char>> {
    match v {
        Some(Json::Arr(entries)) => spec_args_list(entries@),
        _ => Seq::empty(),
    }
}

/// Argument normalization. The new format (an `arguments` object) takes
/// precedence; the legacy format (a single `minecraftArguments` string) is
/// split on whitespace and assigned wholly to the game list; with neither,
/// both lists are empty.
pub open spec fn spec_arguments(doc: Json) -> NormalizedArgumentsModel {
    match spec_get(doc, "arguments"@) {
        Some(args) => NormalizedArgumentsModel {
            game: spec_args_of(spec_get(args, "game"@)),
            jvm: spec_args_of(spec_get(args, "jvm"@)),
        },
        None => match spec_get(doc, "minecraftArguments"@) {
            Some(Json::Str(s)) => NormalizedArgumentsModel {
                game: spec_split_ws(s@),
                jvm: Seq::empty(),
            },
            _ => NormalizedArgumentsModel { game: Seq::empty(), jvm: Seq::empty() },
        },
    }
}

/// The whole normalization: every field of the fixed schema, from one
/// detail document, deterministically and totally.
pub open spec fn spec_normalize(doc: Json) -> NormalizedVersionModel {
    NormalizedVersionModel {
        id: spec_id(doc),
        release_time: spec_release_time(doc),
        java_version: spec_java_version(doc),
        client_jar: spec_download_entry(doc, "client"@),
        server_jar: spec_download_entry(doc, "server"@),
        asset_index: spec_asset_index(doc),
        libraries: spec_libraries(spec_libs_seq(doc)),
        natives: spec_natives(spec_libs_seq(doc)),
        arguments: spec_arguments(doc),
        requires_extraction: spec_hints(spec_libs_seq(doc)),
    }
}

pub(crate) fn get_str_clone(j: &Json, key: &String) -> (r: Option<String>)
    ensures
        r.deep_view() == spec_get_str(*j, key@),
{
    match j.get(key) {
        Some(v) => match v.as_str() {
            Some(s) => Some(s.clone()),
            None => None,
        },
        None => None,
    }
}

pub(crate) fn get_str_or_empty(j: &Json, key: &String) -> (r: String)
    ensures
        r@ == spec_str_or_empty(*j, key@),
{
    match get_str_clone(j, key) {
        Some(s) => s,
        None => String::new(),
    }
}

fn get_u64_of(j: &Json, key: &String) -> (r: Option<u64>)
    ensures
        r == spec_get_u64(*j, key@),
{
    match j.get(key) {
        Some(v) => v.as_u64(),
        None => None,
    }
}

fn extract_java_version(doc: &Json) -> (r: Option<u8>)
    ensures
        r == spec_java_version(*doc),
{
    let k_java_version = String::from_str("javaVersion");
    let k_major_version = String::from_str("majorVersion");
    match doc.get(&k_java_version) {
        Some(jv) => match jv.get(&k_major_version) {
            Some(v) => match v.as_u64() {
                Some(n) => Some((n % 256) as u8),
                None => None,
            },
            None => None,
        },
        None => None,
    }
}

fn extract_downloadable(j: &Json) -> (r: Option<Downloadable>)
    ensures
        opt_downloadable_view(r) == spec_downloadable(*j),
{
    let k_url = String::from_str("url");
    let k_sha1 = String::from_str("sha1");
    let k_size = String::from_str("size");
    match (get_str_clone(j, &k_url), get_str_clone(j, &k_sha1), get_u64_of(j, &k_size)) {
        (Some(url), Some(sha1), Some(size)) => Some(Downloadable { url, sha1, size }),
        _ => None,
    }
}

fn extract_download_entry(doc: &Json, which: &String) -> (r: Option<Downloadable>)
    ensures
        opt_downloadable_view(r) == spec_download_entry(*doc, which@),
{
    let k_downloads = String::from_str("downloads");
    match doc.get(&k_downloads) {
        Some(d) => match d.get(which) {
            Some(entry) => extract_downloadable(entry),
            None => None,
        },
        None => None,
    }
}

fn extract_asset_index(doc: &Json) -> (r: Option<AssetIndex>)
    ensures
        opt_asset_index_view(r) == spec_asset_index(*doc),
{
    let k_asset_index = String::from_str("assetIndex");
    match doc.get(&k_asset_index) {
        Some(a) => {
            let k_id = String::from_str("id");
            let k_url = String::from_str("url");
            let k_sha1 = String::from_str("sha1");
            let k_size = String::from_str("size");
            Some(
                AssetIndex {
                    id: get_str_or_empty(a, &k_id),
                    url: get_str_or_empty(a, &k_url),
                    sha1: get_str_or_empty(a, &k_sha1),
                    size: match get_u64_of(a, &k_size) {
                        Some(n) => n,
                        None => 0,
                    },
                },
            )
        },
        None => None,
    }
}

fn lib_artifact_of(lib: &Json) -> (r: Option<Library>)
    ensures
        match r {
            Some(l) => spec_artifact_library(*lib) == Some(l@),
            None => spec_artifact_library(*lib) is None,
        },
{
    let k_downloads = String::from_str("downloads");
    let k_artifact = String::from_str("artifact");
    let k_name = String::from_str("name");
    let k_url = String::from_str("url");
    let k_sha1 = String::from_str("sha1");
    let k_size = String::from_str("size");
    let k_path = String::from_str("path");
    match lib.get(&k_downloads) {
        Some(d) => match d.get(&k_artifact) {
            Some(artifact) => Some(
                Library {
                    name: get_str_or_empty(lib, &k_name),
                    url: get_str_clone(artifact, &k_url),
                    sha1: get_str_clone(artifact, &k_sha1),
                    size: get_u64_of(artifact, &k_size),
                    path: get_str_clone(artifact, &k_path),
                },
            ),
            None => None,
        },
        None => None,
    }
}

fn lib_extract_flag(lib: &Json) -> (r: bool)
    ensures
        r == spec_extract_flag(*lib),
{
    let k_extract = String::from_str("extract");
    let k_exclude = String::from_str("exclude");
    match lib.get(&k_extract) {
        Some(e) => match e.get(&k_exclude) {
            Some(_) => true,
            None => false,
        },
        None => false,
    }
}

#[verifier::loop_isolation(false)]
fn extract_libraries(doc: &Json) -> (r: (Vec<Library>, Vec<NativeLibrary>, Vec<ExtractionHint>))
    ensures
        library_views(r.0@) == spec_libraries(spec_libs_seq(*doc)),
        native_views(r.1@) == spec_natives(spec_libs_seq(*doc)),
        hint_views(r.2@) == spec_hints(spec_libs_seq(*doc)),
{
    let k_libraries = String::from_str("libraries");
    let k_name = String::from_str("name");
    let k_natives = String::from_str("natives");
    let k_downloads = String::from_str("downloads");
    let k_classifiers = String::from_str("classifiers");
    let k_url = String::from_str("url");
    let k_sha1 = String::from_str("sha1");
    let k_size = String::from_str("size");
    let k_path = String::from_str("path");
    let mut libraries: Vec<Library> = Vec::new();
    let mut natives: Vec<NativeLibrary> = Vec::new();
    let mut hints: Vec<ExtractionHint> = Vec::new();
    proof {
        assert(library_views(libraries@) =~= Seq::<LibraryModel>::empty());
        assert(native_views(natives@) =~= Seq::<NativeLibraryModel>::empty());
        assert(hint_views(hints@) =~= Seq::<ExtractionHintModel>::empty());
    }
    match doc.get(&k_libraries) {
        Some(libs_val) => match libs_val {
            Json::Arr(libs) => {
                let n = libs.len();
                let mut i: usize = 0;
                proof {
                    assert(spec_libs_seq(*doc) == libs@);
                    assert(libs@.take(0) =~= Seq::<Json>::empty());
                }
                while i < n
                    invariant
                        i <= n,
                        library_views(libraries@) == spec_libraries(libs@.take(i as int)),
                        native_views(natives@) == spec_natives(libs@.take(i as int)),
                        hint_views(hints@) == spec_hints(libs@.take(i as int)),
                    decreases n - i,
                {
                    let lib = &libs[i];
                    proof {
                        assert(libs@.take(i + 1).drop_last() =~= libs@.take(i as int));
                        assert(libs@.take(i + 1).last() == libs@[i as int]);
                    }
                    let name = get_str_or_empty(lib, &k_name);
                    match lib.get(&k_natives) {
                        Some(nm) => match nm {
                            Json::Obj(entries) => {
                                let extract_flag = lib_extract_flag(lib);
                                let m = entries.len();
                                let mut k: usize = 0;
                                proof {
                                    assert(entries@.take(0) =~= Seq::<(String, Json)>::empty());
                                }
                                while k < m
                                    invariant
                                        k <= m,
                                        library_views(libraries@) == spec_libraries(
                                            libs@.take(i as int),
                                        ),
                                        native_views(natives@) == spec_natives(
                                            libs@.take(i as int),
                                        ) + spec_natives_of_entries(
                                            libs@[i as int],
                                            entries@.take(k as int),
                                        ),
                                        hint_views(hints@) == spec_hints(libs@.take(i as int))
                                            + spec_hints_of_entries(
                                            libs@[i as int],
                                            entries@.take(k as int),
                                        ),
                                    decreases m - k,
                                {
                                    proof {
                                        assert(entries@.take(k + 1).drop_last() =~= entries@.take(
                                            k as int,
                                        ));
                                        assert(entries@.take(k + 1).last() == entries@[k as int]);
                                    }
                                    let cval = &entries[k].1;
                                    match cval.as_str() {
                                        Some(cls) => match lib.get(&k_downloads) {
                                            Some(d) => match d.get(&k_classifiers) {
                                                Some(c) => match c.get(cls) {
                                                    Some(native) => {
                                                        match (
                                                            get_str_clone(native, &k_url),
                                                            get_str_clone(native, &k_sha1),
                                                            get_u64_of(native, &k_size),
                                                            get_str_clone(native, &k_path),
                                                        ) {
                                                            (
                                                                Some(url),
                                                                Some(sha1),
                                                                Some(size),
                                                                Some(path),
                                                            ) => {
                                                                let ghost before_n = native_views(
                                                                    natives@,
                                                                );
                                                                let ghost before_h = hint_views(
                                                                    hints@,
                                                                );
                                                                natives.push(
                                                                    NativeLibrary {
                                                                        name: name.clone(),
                                                                        classifier: cls.clone(),
                                                                        url,
                                                                        sha1,
                                                                        size,
                                                                        path: path.clone(),
                                                                    },
                                                                );
                                                                hints.push(
                                                                    ExtractionHint {
                                                                        path,
                                                                        requires_extraction:
                                                                            extract_flag,
                                                                    },
                                                                );
                                                                proof {
                                                                    let nm_spec = spec_native_of(
                                                                        libs@[i as int],
                                                                        entries@[k as int].1,
                                                                    );
                                                                    assert(nm_spec matches Some(x)
                                                                        && x
                                                                        == natives@.last()@);
                                                                    assert(native_views(natives@)
                                                                        =~= before_n + seq![
                                                                        natives@.last()@,
                                                                    ]);
                                                                    assert(hint_views(hints@) =~=
                                                                    before_h + seq![
                                                                        hints@.last()@,
                                                                    ]);
                                                                }
                                                            },
                                                            _ => {},
                                                        }
                                                    },
                                                    None => {},
                                                },
                                                None => {},
                                            },
                                            None => {},
                                        },
                                        None => {},
                                    }
                                    k += 1;
                                }
                                proof {
                                    assert(entries@.take(m as int) =~= entries@);
                                }
                            },
                            _ => {
                                match lib_artifact_of(lib) {
                                    Some(l) => {
                                        let ghost before_l = library_views(libraries@);
                                        libraries.push(l);
                                        proof {
                                            assert(library_views(libraries@) =~= before_l + seq![
                                                libraries@.last()@,
                                            ]);
                                        }
                                    },
                                    None => {},
                                }
                            },
                        },
                        None => {
                            match lib_artifact_of(lib) {
                                Some(l) => {
                                    let ghost before_l = library_views(libraries@);
                                    libraries.push(l);
                                    proof {
                                        assert(library_views(libraries@) =~= before_l + seq![
                                            libraries@.last()@,
                                        ]);
                                    }
                                },
                                None => {},
                            }
                        },
                    }
                    i += 1;
                }
                proof {
                    assert(libs@.take(n as int) =~= libs@);
                }
            },
            _ => {},
        },
        None => {},
    }
    (libraries, natives, hints)
}

fn is_space_char(c: char) -> (r: bool)
    ensures
        r == spec_is_space(c),
{
    let u = c as u32;
    u == 0x20 || (0x09 <= u && u <= 0x0D) || u == 0x85 || u == 0xA0 || u == 0x1680 || (0x2000 <= u
        && u <= 0x200A) || u == 0x2028 || u == 0x2029 || u == 0x202F || u == 0x205F || u == 0x3000
}

/// Splits a string into its maximal whitespace-free tokens.
#[verifier::loop_isolation(false)]
fn split_whitespace_tokens(s: &str) -> (r: Vec<String>)
    ensures
        r.deep_view() == spec_split_ws(s@),
{
    let n = s.unicode_len();
    let mut out: Vec<String> = Vec::new();
    let mut start: usize = 0;
    let mut i: usize = 0;
    proof {
        assert(s@.skip(0) =~= s@);
        assert(s@.subrange(0, 0) =~= Seq::<char>::empty());
        assert(out.deep_view() =~= Seq::<Seq<char>>::empty());
    }
    while i < n
        invariant
            start <= i <= n,
            out.deep_view() + spec_split_acc(s@.skip(i as int), s@.subrange(start as int, i as int))
                == spec_split_ws(s@),
        decreases n - i,
    {
        proof {
            assert(s@.skip(i as int)[0] == s@[i as int]);
            assert(s@.skip(i as int).drop_first() =~= s@.skip(i + 1));
        }
        let c = s.get_char(i);
        if is_space_char(c) {
            if start < i {
                let ghost before = out.deep_view();
                let token = s.substring_char(start, i).to_owned();
                out.push(token);
                proof {
                    assert(out.deep_view() =~= before + seq![out@.last()@]);
                }
            }
            i += 1;
            start = i;
            proof {
                assert(s@.subrange(start as int, i as int) =~= Seq::<char>::empty());
            }
        } else {
            i += 1;
            proof {
                assert(s@.subrange(start as int, i - 1).push(s@[i - 1]) =~= s@.subrange(
                    start as int,
                    i as int,
                ));
            }
        }
    }
    proof {
        assert(s@.skip(n as int) =~= Seq::<char>::empty());
    }
    if start < i {
        let ghost before = out.deep_view();
        let token = s.substring_char(start, i).to_owned();
        out.push(token);
        proof {
            assert(out.deep_view() =~= before + seq![out@.last()@]);
        }
    }
    out
}

/// Flattens one optional argument member of the new format: bare strings
/// stand for themselves, rule-conditioned objects contribute their `value`
/// unconditionally, and anything else is skipped.
#[verifier::loop_isolation(false)]
pub fn extract_args(value: Option<&Json>) -> (r: Vec<String>)
    ensures
        match value {
            Some(v) => r.deep_view() == spec_args_of(Some(*v)),
            None => r.deep_view() == spec_args_of(None),
        },
{
    let k_value = String::from_str("value");
    let mut out: Vec<String> = Vec::new();
    proof {
        assert(out.deep_view() =~= Seq::<Seq<char>>::empty());
    }
    match value {
        Some(v) => match v {
            Json::Arr(entries) => {
                let n = entries.len();
                let mut i: usize = 0;
                proof {
                    assert(entries@.take(0) =~= Seq::<Json>::empty());
                }
                while i < n
                    invariant
                        i <= n,
                        out.deep_view() == spec_args_list(entries@.take(i as int)),
                    decreases n - i,
                {
                    proof {
                        assert(entries@.take(i + 1).drop_last() =~= entries@.take(i as int));
                        assert(entries@.take(i + 1).last() == entries@[i as int]);
                    }
                    let entry = &entries[i];
                    match entry {
                        Json::Str(s) => {
                            let ghost before = out.deep_view();
                            out.push(s.clone());
                            proof {
                                assert(out.deep_view() =~= before + seq![out@.last()@]);
                            }
                        },
                        Json::Obj(_) => {
                            match entry.get(&k_value) {
                                Some(val) => match val {
                                    Json::Str(s) => {
                                        let ghost before = out.deep_view();
                                        out.push(s.clone());
                                        proof {
                                            assert(out.deep_view() =~= before + seq![
                                                out@.last()@,
                                            ]);
                                        }
                                    },
                                    Json::Arr(items) => {
                                        let m = items.len();
                                        let mut k: usize = 0;
                                        proof {
                                            assert(items@.take(0) =~= Seq::<Json>::empty());
                                        }
                                        while k < m
                                            invariant
                                                k <= m,
                                                out.deep_view() == spec_args_list(
                                                    entries@.take(i as int),
                                                ) + spec_str_items(items@.take(k as int)),
                                            decreases m - k,
                                        {
                                            proof {
                                                assert(items@.take(k + 1).drop_last()
                                                    =~= items@.take(k as int));
                                                let ghost ki = k as int;
                                                assert(items@.take(k + 1).last() == items@[ki]);
                                            }
                                            match items[k].as_str() {
                                                Some(s) => {
                                                    let ghost before = out.deep_view();
                                                    out.push(s.clone());
                                                    proof {
                                                        assert(out.deep_view() =~= before + seq![
                                                            out@.last()@,
                                                        ]);
                                                    }
                                                },
                                                None => {},
                                            }
                                            k += 1;
                                        }
                                        proof {
                                            assert(items@.take(m as int) =~= items@);
                                        }
                                    },
                                    _ => {},
                                },
                                None => {},
                            }
                        },
                        _ => {},
                    }
                    i += 1;
                }
                proof {
                    assert(entries@.take(n as int) =~= entries@);
                }
            },
            _ => {},
        },
        None => {},
    }
    out
}

/// Normalization is idempotent: the schema a document maps to is one fixed
/// value, so normalizing the same document any number of times yields
/// field-wise identical results.
pub proof fn lemma_normalize_idempotent(
    doc: Json,
    v1: NormalizedVersionModel,
    v2: NormalizedVersionModel,
)
    requires
        v1 == spec_normalize(doc),
        v2 == spec_normalize(doc),
    ensures
        v1 == v2,
{
}

/// Normalizes one version-detail document onto the fixed schema.
///
/// A document whose top level is not an object is the one malformed
/// mandatory shape, and fails. On every object document the mapping
/// succeeds, whatever optional or legacy structure is present or missing,
/// and computes exactly `spec_normalize`.
pub fn parse_version_json(doc: &Json) -> (r: Result<NormalizedVersion, &'static str>)
    ensures
        (*doc) is Obj ==> (r matches Ok(v) && v@ == spec_normalize(*doc)),
        !((*doc) is Obj) ==> r is Err,
{
    match doc {
        Json::Obj(_) => {},
        _ => {
            return Err("the version detail document is not a JSON object");
        },
    }
    let k_id = String::from_str("id");
    let k_release_time = String::from_str("releaseTime");
    let k_client = String::from_str("client");
    let k_server = String::from_str("server");
    let k_arguments = String::from_str("arguments");
    let k_game = String::from_str("game");
    let k_jvm = String::from_str("jvm");
    let k_minecraft_arguments = String::from_str("minecraftArguments");
    let id = get_str_or_empty(doc, &k_id);
    let release_time = get_str_clone(doc, &k_release_time);
    let java_version = extract_java_version(doc);
    let client_jar = extract_download_entry(doc, &k_client);
    let server_jar = extract_download_entry(doc, &k_server);
    let asset_index = extract_asset_index(doc);
    let (libraries, natives, requires_extraction) = extract_libraries(doc);
    let arguments = match doc.get(&k_arguments) {
        Some(args) => NormalizedArguments {
            game: extract_args(args.get(&k_game)),
            jvm: extract_args(args.get(&k_jvm)),
        },
        None => match doc.get(&k_minecraft_arguments) {
            Some(v) => match v.as_str() {
                Some(s) => NormalizedArguments {
                    game: split_whitespace_tokens(s.as_str()),
                    jvm: Vec::new(),
                },
                None => NormalizedArguments { game: Vec::new(), jvm: Vec::new() },
            },
            None => NormalizedArguments { game: Vec::new(), jvm: Vec::new() },
        },
    };
    let result = NormalizedVersion {
        id,
        release_time,
        java_version,
        client_jar,
        server_jar,
        asset_index,
        libraries,
        natives,
        arguments,
        requires_extraction,
    };
    proof {
        assert(result@ =~= spec_normalize(*doc));
    }
    Ok(result)
}

} // verus!
