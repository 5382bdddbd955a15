//! The data model: version summaries, the top-level manifest, and the
//! normalized per-version schema.
//!
//! Every type carries a mathematical model (a ghost struct over sequences)
//! reached through `View`, and a `Clone` that provably preserves that model.
//! Cached values are returned as copies, so the caches' contracts rest on
//! these clones.

use vstd::prelude::*;

verus! {

/// Address of the upstream top-level manifest document.
pub const MOJANG_URL: &'static str = "https://piston-meta.mojang.com/mc/game/version_manifest_v2.json";

/// One entry of the top-level manifest: a version and where its detail
/// document lives.
#[derive(Debug, PartialEq, Eq)]
pub struct MinecraftVersion {
    pub id: String,
    pub hash: String,
    pub release_time: String,
    pub url: String,
    pub version_type: String,
}

/// Model of a `MinecraftVersion`: each field as a character sequence.
#[verifier::ext_equal]
pub ghost struct MinecraftVersionModel {
    pub id: Seq<char>,
    pub hash: Seq<char>,
    pub release_time: Seq<char>,
    pub url: Seq<char>,
    pub version_type: Seq<char>,
}

impl View for MinecraftVersion {
    type V = MinecraftVersionModel;

    open spec fn view(&self) -> MinecraftVersionModel {
        MinecraftVersionModel {
            id: self.id@,
            hash: self.hash@,
            release_time: self.release_time@,
            url: self.url@,
            version_type: self.version_type@,
        }
    }
}

impl Clone for MinecraftVersion {
    fn clone(&self) -> (r: Self)
        ensures
            r@ == self@,
    {
        MinecraftVersion {
            id: self.id.clone(),
            hash: self.hash.clone(),
            release_time: self.release_time.clone(),
            url: self.url.clone(),
            version_type: self.version_type.clone(),
        }
    }
}

/// Models of a sequence of version summaries, element-wise.
pub open spec fn version_views(s: Seq<MinecraftVersion>) -> Seq<MinecraftVersionModel> {
    s.map_values(|x: MinecraftVersion| x@)
}

/// The top-level manifest: the two "latest" pointers and the listed versions.
#[derive(Debug, PartialEq, Eq)]
pub struct VersionManifest {
    pub latest_release: String,
    pub latest_snapshot: String,
    pub versions: Vec<MinecraftVersion>,
}

/// Model of a `VersionManifest`.
#[verifier::ext_equal]
pub ghost struct VersionManifestModel {
    pub latest_release: Seq<char>,
    pub latest_snapshot: Seq<char>,
    pub versions: Seq<MinecraftVersionModel>,
}

impl View for VersionManifest {
    type V = VersionManifestModel;

    open spec fn view(&self) -> VersionManifestModel {
        VersionManifestModel {
            latest_release: self.latest_release@,
            latest_snapshot: self.latest_snapshot@,
            versions: version_views(self.versions@),
        }
    }
}

fn clone_versions(v: &Vec<MinecraftVersion>) -> (r: Vec<MinecraftVersion>)
    ensures
        version_views(r@) == version_views(v@),
{
    let n = v.len();
    let mut r: Vec<MinecraftVersion> = Vec::new();
    let mut i: usize = 0;
    while i < n
        invariant
            i <= n == v@.len(),
            r@.len() == i,
            forall|j: int| 0 <= j < i ==> r@[j]@ == v@[j]@,
        decreases n - i,
    {
        r.push(v[i].clone());
        i += 1;
    }
    proof {
        assert(version_views(r@) =~= version_views(v@));
    }
    r
}

impl Clone for VersionManifest {
    fn clone(&self) -> (r: Self)
        ensures
            r@ == self@,
    {
        VersionManifest {
            latest_release: self.latest_release.clone(),
            latest_snapshot: self.latest_snapshot.clone(),
            versions: clone_versions(&self.versions),
        }
    }
}

/// A fully-described artifact: all three fields are required together.
#[derive(Debug, PartialEq, Eq)]
pub struct Downloadable {
    pub url: String,
    pub sha1: String,
    pub size: u64,
}

/// Model of a `Downloadable`.
#[verifier::ext_equal]
pub ghost struct DownloadableModel {
    pub url: Seq<char>,
    pub sha1: Seq<char>,
    pub size: u64,
}

impl View for Downloadable {
    type V = DownloadableModel;

    open spec fn view(&self) -> DownloadableModel {
        DownloadableModel { url: self.url@, sha1: self.sha1@, size: self.size }
    }
}

impl Clone for Downloadable {
    fn clone(&self) -> (r: Self)
        ensures
            r@ == self@,
    {
        Downloadable { url: self.url.clone(), sha1: self.sha1.clone(), size: self.size }
    }
}

/// The asset index pointer; fields default individually instead of the
/// whole entity being dropped.
#[derive(Debug, PartialEq, Eq)]
pub struct AssetIndex {
    pub id: String,
    pub url: String,
    pub sha1: String,
    pub size: u64,
}

/// Model of an `AssetIndex`.
#[verifier::ext_equal]
pub ghost struct AssetIndexModel {
    pub id: Seq<char>,
    pub url: Seq<char>,
    pub sha1: Seq<char>,
    pub size: u64,
}

impl View for AssetIndex {
    type V = AssetIndexModel;

    open spec fn view(&self) -> AssetIndexModel {
        AssetIndexModel { id: self.id@, url: self.url@, sha1: self.sha1@, size: self.size }
    }
}

impl Clone for AssetIndex {
    fn clone(&self) -> (r: Self)
        ensures
            r@ == self@,
    {
        AssetIndex {
            id: self.id.clone(),
            url: self.url.clone(),
            sha1: self.sha1.clone(),
            size: self.size,
        }
    }
}

/// A platform-independent dependency artifact; fields other than the name
/// are individually optional.
#[derive(Debug, PartialEq, Eq)]
pub struct Library {
    pub name: String,
    pub url: Option<String>,
    pub sha1: Option<String>,
    pub size: Option<u64>,
    pub path: Option<String>,
}

/// Model of a `Library`.
#[verifier::ext_equal]
pub ghost struct LibraryModel {
    pub name: Seq<char>,
    pub url: Option<Seq<char>>,
    pub sha1: Option<Seq<char>>,
    pub size: Option<u64>,
    pub path: Option<Seq<char>>,
}

impl View for Library {
    type V = LibraryModel;

    open spec fn view(&self) -> LibraryModel {
        LibraryModel {
            name: self.name@,
            url: self.url.deep_view(),
            sha1: self.sha1.deep_view(),
            size: self.size.deep_view(),
            path: self.path.deep_view(),
        }
    }
}

fn clone_opt_string(v: &Option<String>) -> (r: Option<String>)
    ensures
        r.deep_view() == v.deep_view(),
{
    match v {
        Some(s) => Some(s.clone()),
        None => None,
    }
}

impl Clone for Library {
    fn clone(&self) -> (r: Self)
        ensures
            r@ == self@,
    {
        Library {
            name: self.name.clone(),
            url: clone_opt_string(&self.url),
            sha1: clone_opt_string(&self.sha1),
            size: self.size,
            path: clone_opt_string(&self.path),
        }
    }
}

/// Models of a sequence of libraries, element-wise.
pub open spec fn library_views(s: Seq<Library>) -> Seq<LibraryModel> {
    s.map_values(|x: Library| x@)
}

/// One native artifact resolved for one platform classifier; every field is
/// required, the entry is dropped whole when any lookup fails.
#[derive(Debug, PartialEq, Eq)]
pub struct NativeLibrary {
    pub name: String,
    pub classifier: String,
    pub url: String,
    pub sha1: String,
    pub size: u64,
    pub path: String,
}

/// Model of a `NativeLibrary`.
#[verifier::ext_equal]
pub ghost struct NativeLibraryModel {
    pub name: Seq<char>,
    pub classifier: Seq<char>,
    pub url: Seq<char>,
    pub sha1: Seq<char>,
    pub size: u64,
    pub path: Seq<char>,
}

impl View for NativeLibrary {
    type V = NativeLibraryModel;

    open spec fn view(&self) -> NativeLibraryModel {
        NativeLibraryModel {
            name: self.name@,
            classifier: self.classifier@,
            url: self.url@,
            sha1: self.sha1@,
            size: self.size,
            path: self.path@,
        }
    }
}

impl Clone for NativeLibrary {
    fn clone(&self) -> (r: Self)
        ensures
            r@ == self@,
    {
        NativeLibrary {
            name: self.name.clone(),
            classifier: self.classifier.clone(),
            url: self.url.clone(),
            sha1: self.sha1.clone(),
            size: self.size,
            path: self.path.clone(),
        }
    }
}

/// Models of a sequence of native libraries, element-wise.
pub open spec fn native_views(s: Seq<NativeLibrary>) -> Seq<NativeLibraryModel> {
    s.map_values(|x: NativeLibrary| x@)
}

/// Extraction directive emitted alongside each native artifact.
#[derive(Debug, PartialEq, Eq)]
pub struct ExtractionHint {
    pub path: String,
    pub requires_extraction: bool,
}

/// Model of an `ExtractionHint`.
#[verifier::ext_equal]
pub ghost struct ExtractionHintModel {
    pub path: Seq<char>,
    pub requires_extraction: bool,
}

impl View for ExtractionHint {
    type V = ExtractionHintModel;

    open spec fn view(&self) -> ExtractionHintModel {
        ExtractionHintModel { path: self.path@, requires_extraction: self.requires_extraction }
    }
}

impl Clone for ExtractionHint {
    fn clone(&self) -> (r: Self)
        ensures
            r@ == self@,
    {
        ExtractionHint {
            path: self.path.clone(),
            requires_extraction: self.requires_extraction,
        }
    }
}

/// Models of a sequence of extraction hints, element-wise.
pub open spec fn hint_views(s: Seq<ExtractionHint>) -> Seq<ExtractionHintModel> {
    s.map_values(|x: ExtractionHint| x@)
}

/// Launch arguments after reconciling the two upstream formats.
#[derive(Debug, PartialEq, Eq)]
pub struct NormalizedArguments {
    pub game: Vec<String>,
    pub jvm: Vec<String>,
}

/// Model of `NormalizedArguments`.
#[verifier::ext_equal]
pub ghost struct NormalizedArgumentsModel {
    pub game: Seq<Seq<char>>,
    pub jvm: Seq<Seq<char>>,
}

impl View for NormalizedArguments {
    type V = NormalizedArgumentsModel;

    open spec fn view(&self) -> NormalizedArgumentsModel {
        NormalizedArgumentsModel { game: self.game.deep_view(), jvm: self.jvm.deep_view() }
    }
}

fn clone_strings(v: &Vec<String>) -> (r: Vec<String>)
    ensures
        r.deep_view() == v.deep_view(),
{
    let n = v.len();
    let mut r: Vec<String> = Vec::new();
    let mut i: usize = 0;
    while i < n
        invariant
            i <= n == v@.len(),
            r@.len() == i,
            forall|j: int| 0 <= j < i ==> r@[j]@ == v@[j]@,
        decreases n - i,
    {
        r.push(v[i].clone());
        i += 1;
    }
    proof {
        assert(r.deep_view() =~= v.deep_view());
    }
    r
}

impl Clone for NormalizedArguments {
    fn clone(&self) -> (r: Self)
        ensures
            r@ == self@,
    {
        NormalizedArguments { game: clone_strings(&self.game), jvm: clone_strings(&self.jvm) }
    }
}

/// The normalized per-version schema: what every consumer sees regardless of
/// the upstream document's vintage.
#[derive(Debug, PartialEq, Eq)]
pub struct NormalizedVersion {
    pub id: String,
    pub release_time: Option<String>,
    pub java_version: Option<u8>,
    pub client_jar: Option<Downloadable>,
    pub server_jar: Option<Downloadable>,
    pub asset_index: Option<AssetIndex>,
    pub libraries: Vec<Library>,
    pub natives: Vec<NativeLibrary>,
    pub arguments: NormalizedArguments,
    pub requires_extraction: Vec<ExtractionHint>,
}

/// Model of a `NormalizedVersion`.
#[verifier::ext_equal]
pub ghost struct NormalizedVersionModel {
    pub id: Seq<char>,
    pub release_time: Option<Seq<char>>,
    pub java_version: Option<u8>,
    pub client_jar: Option<DownloadableModel>,
    pub server_jar: Option<DownloadableModel>,
    pub asset_index: Option<AssetIndexModel>,
    pub libraries: Seq<LibraryModel>,
    pub natives: Seq<NativeLibraryModel>,
    pub arguments: NormalizedArgumentsModel,
    pub requires_extraction: Seq<ExtractionHintModel>,
}

/// Model of an optional `Downloadable`.
pub open spec fn opt_downloadable_view(v: Option<Downloadable>) -> Option<DownloadableModel> {
    match v {
        Some(d) => Some(d@),
        None => None,
    }
}

/// Model of an optional `AssetIndex`.
pub open spec fn opt_asset_index_view(v: Option<AssetIndex>) -> Option<AssetIndexModel> {
    match v {
        Some(a) => Some(a@),
        None => None,
    }
}

impl View for NormalizedVersion {
    type V = NormalizedVersionModel;

    open spec fn view(&self) -> NormalizedVersionModel {
        NormalizedVersionModel {
            id: self.id@,
            release_time: self.release_time.deep_view(),
            java_version: self.java_version,
            client_jar: opt_downloadable_view(self.client_jar),
            server_jar: opt_downloadable_view(self.server_jar),
            asset_index: opt_asset_index_view(self.asset_index),
            libraries: library_views(self.libraries@),
            natives: native_views(self.natives@),
            arguments: self.arguments@,
            requires_extraction: hint_views(self.requires_extraction@),
        }
    }
}

fn clone_libraries(v: &Vec<Library>) -> (r: Vec<Library>)
    ensures
        library_views(r@) == library_views(v@),
{
    let n = v.len();
    let mut r: Vec<Library> = Vec::new();
    let mut i: usize = 0;
    while i < n
        invariant
            i <= n == v@.len(),
            r@.len() == i,
            forall|j: int| 0 <= j < i ==> r@[j]@ == v@[j]@,
        decreases n - i,
    {
        r.push(v[i].clone());
        i += 1;
    }
    proof {
        assert(library_views(r@) =~= library_views(v@));
    }
    r
}

fn clone_natives(v: &Vec<NativeLibrary>) -> (r: Vec<NativeLibrary>)
    ensures
        native_views(r@) == native_views(v@),
{
    let n = v.len();
    let mut r: Vec<NativeLibrary> = Vec::new();
    let mut i: usize = 0;
    while i < n
        invariant
            i <= n == v@.len(),
            r@.len() == i,
            forall|j: int| 0 <= j < i ==> r@[j]@ == v@[j]@,
        decreases n - i,
    {
        r.push(v[i].clone());
        i += 1;
    }
    proof {
        assert(native_views(r@) =~= native_views(v@));
    }
    r
}

fn clone_hints(v: &Vec<ExtractionHint>) -> (r: Vec<ExtractionHint>)
    ensures
        hint_views(r@) == hint_views(v@),
{
    let n = v.len();
    let mut r: Vec<ExtractionHint> = Vec::new();
    let mut i: usize = 0;
    while i < n
        invariant
            i <= n == v@.len(),
            r@.len() == i,
            forall|j: int| 0 <= j < i ==> r@[j]@ == v@[j]@,
        decreases n - i,
    {
        r.push(v[i].clone());
        i += 1;
    }
    proof {
        assert(hint_views(r@) =~= hint_views(v@));
    }
    r
}

fn clone_opt_downloadable(v: &Option<Downloadable>) -> (r: Option<Downloadable>)
    ensures
        opt_downloadable_view(r) == opt_downloadable_view(*v),
{
    match v {
        Some(d) => Some(d.clone()),
        None => None,
    }
}

impl Clone for NormalizedVersion {
    fn clone(&self) -> (r: Self)
        ensures
            r@ == self@,
    {
        NormalizedVersion {
            id: self.id.clone(),
            release_time: clone_opt_string(&self.release_time),
            java_version: self.java_version,
            client_jar: clone_opt_downloadable(&self.client_jar),
            server_jar: clone_opt_downloadable(&self.server_jar),
            asset_index: match &self.asset_index {
                Some(a) => Some(a.clone()),
                None => None,
            },
            libraries: clone_libraries(&self.libraries),
            natives: clone_natives(&self.natives),
            arguments: self.arguments.clone(),
            requires_extraction: clone_hints(&self.requires_extraction),
        }
    }
}

} // verus!
