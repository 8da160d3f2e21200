//! Mojang's version manifest, what installing a version downloads, and the
//! `java` command that starts the game.

pub mod hex;

use vstd::prelude::*;
use crate::auth::MinecraftAccount;
use crate::http::{get_request, spec_get, HttpRequest};
use crate::paths::{
    assets_dir, libraries_dir, spec_assets_dir, spec_libraries_dir, spec_versions_dir,
    versions_dir, LauncherPath,
};
use crate::process::{
    command_args_view, path_args_view, text_arg, CommandArg, CommandArgView, PathArg, PathArgView,
    ProcessSpec, ProcessSpecView,
};
use crate::text::{cat, decimal, decimal_u64, str_eq};
use hex::{encode, hex_of};

verus! {

pub const VERSION_MANIFEST_URL: &'static str =
    "https://piston-meta.mojang.com/mc/game/version_manifest_v2.json";

#[derive(Debug, Clone, PartialEq, Eq)]
pub struct VersionManifest {
    pub latest: LatestVersions,
    pub versions: Vec<VersionEntry>,
}

#[derive(Debug, Clone, PartialEq, Eq)]
pub struct LatestVersions {
    pub release: String,
    pub snapshot: String,
}

#[derive(Debug, Clone, PartialEq, Eq)]
pub struct VersionEntry {
    pub id: String,
    pub version_type: String,
    pub url: String,
}

/// The request for the version manifest.
pub fn version_manifest_request() -> (r: HttpRequest)
    ensures
        r@ == spec_get(VERSION_MANIFEST_URL@),
{
    get_request(VERSION_MANIFEST_URL.to_owned())
}

/// Index of the first version listed with id `id`, or -1.
pub open spec fn index_of_version(versions: Seq<VersionEntry>, id: Seq<char>) -> int
    decreases versions.len(),
{
    if versions.len() == 0 {
        -1
    } else {
        let k = index_of_version(versions.drop_last(), id);
        if k >= 0 {
            k
        } else if versions.last().id@ == id {
            versions.len() - 1
        } else {
            -1
        }
    }
}

pub proof fn lemma_index_of_version(versions: Seq<VersionEntry>, id: Seq<char>)
    ensures
        -1 <= index_of_version(versions, id) < versions.len(),
        index_of_version(versions, id) >= 0 ==> versions[index_of_version(versions, id)].id@ == id,
        forall|j: int| 0 <= j < versions.len()
            && (index_of_version(versions, id) < 0 || j < index_of_version(versions, id))
            ==> #[trigger] versions[j].id@ != id,
    decreases versions.len(),
{
    if versions.len() > 0 {
        lemma_index_of_version(versions.drop_last(), id);
        assert forall|j: int| 0 <= j < versions.len()
            && (index_of_version(versions, id) < 0 || j < index_of_version(versions, id))
            implies #[trigger] versions[j].id@ != id by {
            if j < versions.len() - 1 {
                assert(versions[j] == versions.drop_last()[j]);
            }
        }
    }
}

/// The first entry of the manifest with id `id`.
pub fn find_version<'a>(manifest: &'a VersionManifest, id: &str) -> (r: Option<&'a VersionEntry>)
    ensures
        ({
            let k = index_of_version(manifest.versions@, id@);
            if k >= 0 {
                r is Some && *r->Some_0 == manifest.versions@[k]
            } else {
                r is None
            }
        }),
{
    let mut i: usize = 0;
    while i < manifest.versions.len()
        invariant
            i <= manifest.versions.len(),
            index_of_version(manifest.versions@.take(i as int), id@) == -1,
        decreases manifest.versions.len() - i,
    {
        assert(manifest.versions@.take(i + 1).drop_last() == manifest.versions@.take(i as int));
        if str_eq(manifest.versions[i].id.as_str(), id) {
            proof {
                lemma_index_of_version(manifest.versions@, id@);
                lemma_index_of_version(manifest.versions@.take(i as int), id@);
                let k = index_of_version(manifest.versions@, id@);
                if 0 <= k < i {
                    assert(manifest.versions@.take(i as int)[k] == manifest.versions@[k]);
                    assert(manifest.versions@.take(i as int)[k].id@ != id@);
                }
                if k < 0 || k > i {
                    assert(manifest.versions@[i as int].id@ != id@);
                }
                assert(k == i);
            }
            return Some(&manifest.versions[i]);
        }
        i = i + 1;
    }
    proof {
        assert(manifest.versions@.take(manifest.versions.len() as int) == manifest.versions@);
    }
    None
}

/// The library file a version entry points to (`downloads.artifact`), with the
/// fields that are strings.
#[derive(Debug, Clone, PartialEq, Eq)]
pub struct Artifact {
    pub url: Option<String>,
    pub path: Option<String>,
    pub sha1: Option<String>,
}

/// A library of a version; `artifact` is `None` when the entry has no
/// `downloads.artifact` object.
#[derive(Debug, Clone, PartialEq, Eq)]
pub struct Library {
    pub artifact: Option<Artifact>,
}

/// What the launcher reads from a version's JSON document, each string field
/// `None` when it is absent or not a string.
#[derive(Debug, Clone, PartialEq, Eq)]
pub struct VersionFields {
    pub id: Option<String>,
    pub main_class: Option<String>,
    pub asset_index_url: Option<String>,
    pub asset_index_id: Option<String>,
    pub client_jar_url: Option<String>,
    pub client_jar_sha1: Option<String>,
    pub server_jar_url: Option<String>,
    pub server_jar_sha1: Option<String>,
    pub libraries: Vec<Library>,
}

/// The detailed description of a version (libraries, asset index, main class,
/// downloads).
#[derive(Debug, Clone, PartialEq, Eq)]
pub struct VersionDetails {
    pub id: String,
    pub main_class: String,
    pub asset_index_url: String,
    pub asset_index_id: String,
    pub client_jar_url: String,
    pub client_jar_sha1: String,
    pub server_jar_url: Option<String>,
    pub server_jar_sha1: Option<String>,
    pub libraries: Vec<Library>,
}

pub open spec fn or_empty(o: Option<String>) -> Seq<char> {
    match o {
        Some(s) => s@,
        None => Seq::empty(),
    }
}

fn unwrap_or_empty(o: Option<String>) -> (r: String)
    ensures
        r@ == or_empty(o),
{
    match o {
        Some(s) => s,
        None => String::new(),
    }
}

/// The details of a version: a string field missing from the document reads as
/// empty; the libraries and the server download are kept as read.
pub fn version_details(fields: VersionFields) -> (r: VersionDetails)
    ensures
        r.id@ == or_empty(fields.id),
        r.main_class@ == or_empty(fields.main_class),
        r.asset_index_url@ == or_empty(fields.asset_index_url),
        r.asset_index_id@ == or_empty(fields.asset_index_id),
        r.client_jar_url@ == or_empty(fields.client_jar_url),
        r.client_jar_sha1@ == or_empty(fields.client_jar_sha1),
        r.server_jar_url == fields.server_jar_url,
        r.server_jar_sha1 == fields.server_jar_sha1,
        r.libraries == fields.libraries,
{
    VersionDetails {
        id: unwrap_or_empty(fields.id),
        main_class: unwrap_or_empty(fields.main_class),
        asset_index_url: unwrap_or_empty(fields.asset_index_url),
        asset_index_id: unwrap_or_empty(fields.asset_index_id),
        client_jar_url: unwrap_or_empty(fields.client_jar_url),
        client_jar_sha1: unwrap_or_empty(fields.client_jar_sha1),
        server_jar_url: fields.server_jar_url,
        server_jar_sha1: fields.server_jar_sha1,
        libraries: fields.libraries,
    }
}

/// SHA-1 digest of `data`, as the sha1 crate computes it.
pub uninterp spec fn sha1_of(data: Seq<u8>) -> Seq<u8>;

/// The sha1 crate's `Digest::digest` for `Sha1`. Claimed: the result is the
/// digest named `sha1_of` for these bytes, and it is 20 bytes long (`Sha1`'s
/// output size).
#[verifier::external_body]
fn sha1_digest(data: &[u8]) -> (r: Vec<u8>)
    ensures
        r@ == sha1_of(data@),
        r@.len() == 20,
{
    <sha1::Sha1 as sha1::Digest>::digest(data).to_vec()
}

/// What to do before downloading a file to a destination.
#[derive(Debug, Clone, Copy, PartialEq, Eq, Structural)]
pub enum DownloadCheck {
    /// Download it.
    Fetch,
    /// Keep the file that is already there.
    Keep,
    /// Keep the file that is there if its SHA-1 matches, else download it.
    CompareSha1,
}

/// A file already present is kept when no digest is expected, and checked
/// against the digest otherwise; a missing file is downloaded.
pub fn download_check(dest_exists: bool, expected_sha1: Option<&str>) -> (r: DownloadCheck)
    ensures
        !dest_exists ==> r == DownloadCheck::Fetch,
        dest_exists && expected_sha1 is None ==> r == DownloadCheck::Keep,
        dest_exists && expected_sha1 is Some ==> r == DownloadCheck::CompareSha1,
{
    if !dest_exists {
        DownloadCheck::Fetch
    } else {
        match expected_sha1 {
            Some(_) => DownloadCheck::CompareSha1,
            None => DownloadCheck::Keep,
        }
    }
}

/// Whether a file with these contents is valid for the expected SHA-1
/// (compared as lowercase hexadecimal text).
pub fn cached_file_matches(contents: &[u8], expected_sha1: &str) -> (r: bool)
    ensures
        r == (hex_of(sha1_of(contents@)) == expected_sha1@),
{
    let digest = sha1_digest(contents);
    let actual = encode(digest.as_slice());
    str_eq(actual.as_str(), expected_sha1)
}

/// A file to download: from `url` to `dest`, checked against `sha1` when given.
#[derive(Debug, Clone, PartialEq, Eq)]
pub struct DownloadJob {
    pub url: String,
    pub dest: LauncherPath,
    pub sha1: Option<String>,
}

pub struct DownloadJobView {
    pub url: Seq<char>,
    pub dest: Seq<Seq<char>>,
    pub sha1: Option<Seq<char>>,
}

impl View for DownloadJob {
    type V = DownloadJobView;

    open spec fn view(&self) -> DownloadJobView {
        DownloadJobView { url: self.url@, dest: self.dest@, sha1: self.sha1.deep_view() }
    }
}

pub open spec fn jobs_view(v: Seq<DownloadJob>) -> Seq<DownloadJobView> {
    v.map_values(|j: DownloadJob| j@)
}

/// `versions/<id>/<id>.jar`
pub open spec fn spec_client_jar(id: Seq<char>) -> Seq<Seq<char>> {
    spec_versions_dir().push(id).push(id + ".jar"@)
}

/// The download of one library: its artifact's url and path must both be
/// present and non-empty.
pub open spec fn spec_library_job(lib: Library) -> Option<DownloadJobView> {
    match lib.artifact {
        Some(a) => if or_empty(a.url).len() > 0 && or_empty(a.path).len() > 0 {
            Some(DownloadJobView {
                url: or_empty(a.url),
                dest: spec_libraries_dir().push(or_empty(a.path)),
                sha1: a.sha1.deep_view(),
            })
        } else {
            None
        },
        None => None,
    }
}

pub open spec fn spec_library_jobs(libs: Seq<Library>) -> Seq<DownloadJobView>
    decreases libs.len(),
{
    if libs.len() == 0 {
        Seq::empty()
    } else {
        let prev = spec_library_jobs(libs.drop_last());
        match spec_library_job(libs.last()) {
            Some(j) => prev.push(j),
            None => prev,
        }
    }
}

/// Everything installing a version downloads, in order: the client jar
/// (checked against its SHA-1), each library that has an artifact with a url
/// and a path, then the asset index when the version names one.
pub open spec fn spec_install_jobs(d: VersionDetails) -> Seq<DownloadJobView> {
    let client = DownloadJobView {
        url: d.client_jar_url@,
        dest: spec_client_jar(d.id@),
        sha1: Some(d.client_jar_sha1@),
    };
    let with_libs = seq![client] + spec_library_jobs(d.libraries@);
    if d.asset_index_url@.len() > 0 {
        with_libs.push(DownloadJobView {
            url: d.asset_index_url@,
            dest: spec_assets_dir().push("indexes"@).push(d.asset_index_id@ + ".json"@),
            sha1: None,
        })
    } else {
        with_libs
    }
}

fn opt_clone(o: &Option<String>) -> (r: Option<String>)
    ensures
        r.deep_view() == o.deep_view(),
{
    match o {
        Some(s) => Some(s.clone()),
        None => None,
    }
}

fn opt_str_or_empty(o: &Option<String>) -> (r: String)
    ensures
        r@ == or_empty(*o),
{
    match o {
        Some(s) => s.clone(),
        None => String::new(),
    }
}

/// Installing a version downloads the client jar first, checked against its
/// SHA-1; then one file per library that names both a url and a path, into the
/// libraries folder; and last the asset index when the version names one,
/// into `assets/indexes/<id>.json`.
pub proof fn lemma_install_jobs(d: VersionDetails)
    ensures
        spec_install_jobs(d).len() == 1 + spec_library_jobs(d.libraries@).len()
            + (if d.asset_index_url@.len() > 0 { 1int } else { 0int }),
        spec_install_jobs(d)[0] == (DownloadJobView {
            url: d.client_jar_url@,
            dest: spec_versions_dir().push(d.id@).push(d.id@ + ".jar"@),
            sha1: Some(d.client_jar_sha1@),
        }),
        d.asset_index_url@.len() > 0 ==> spec_install_jobs(d).last() == (DownloadJobView {
            url: d.asset_index_url@,
            dest: spec_assets_dir().push("indexes"@).push(d.asset_index_id@ + ".json"@),
            sha1: None,
        }),
        spec_library_jobs(d.libraries@).len() <= d.libraries@.len(),
        forall|i: int| 0 <= i < spec_library_jobs(d.libraries@).len() ==> {
            let job = #[trigger] spec_library_jobs(d.libraries@)[i];
            &&& spec_install_jobs(d)[1 + i] == job
            &&& job.url.len() > 0
            &&& exists|p: Seq<char>| p.len() > 0 && job.dest == spec_libraries_dir().push(p)
        },
{
    lemma_library_jobs(d.libraries@);
}

/// Each library job downloads a library's artifact (a non-empty url, into the
/// libraries folder at the artifact's non-empty path, checked against its
/// SHA-1); there is at most one per library.
pub proof fn lemma_library_jobs(libs: Seq<Library>)
    ensures
        spec_library_jobs(libs).len() <= libs.len(),
        forall|i: int| 0 <= i < spec_library_jobs(libs).len() ==> {
            let job = #[trigger] spec_library_jobs(libs)[i];
            &&& job.url.len() > 0
            &&& exists|p: Seq<char>| p.len() > 0 && job.dest == spec_libraries_dir().push(p)
        },
        (forall|k: int| 0 <= k < libs.len() ==> #[trigger] spec_library_job(libs[k]) is Some)
            ==> spec_library_jobs(libs).len() == libs.len(),
    decreases libs.len(),
{
    if libs.len() > 0 {
        let prev = libs.drop_last();
        lemma_library_jobs(prev);
        assert forall|k: int| 0 <= k < prev.len() implies prev[k] == libs[k] by {}
        if forall|k: int| 0 <= k < libs.len() ==> #[trigger] spec_library_job(libs[k]) is Some {
            assert forall|k: int| 0 <= k < prev.len() implies #[trigger] spec_library_job(prev[k]) is Some by {
                assert(prev[k] == libs[k]);
            }
            assert(spec_library_job(libs[libs.len() - 1]) is Some);
        }
        assert forall|i: int| 0 <= i < spec_library_jobs(libs).len() implies {
            let job = #[trigger] spec_library_jobs(libs)[i];
            &&& job.url.len() > 0
            &&& exists|p: Seq<char>| p.len() > 0 && job.dest == spec_libraries_dir().push(p)
        } by {
            if i < spec_library_jobs(prev).len() {
                assert(spec_library_jobs(libs)[i] == spec_library_jobs(prev)[i]);
            } else {
                let a = libs.last().artifact->0;
                assert(spec_library_jobs(libs)[i].dest == spec_libraries_dir().push(or_empty(a.path)));
            }
        }
    }
}

/// The location of a version's client jar.
pub fn client_jar_path(details: &VersionDetails) -> (r: LauncherPath)
    ensures
        r@ == spec_client_jar(details.id@),
{
    let name = cat(details.id.as_str(), ".jar");
    versions_dir().join(details.id.as_str()).join(name.as_str())
}

/// The downloads that install a version (`ensure_version_installed`), and the
/// location of its client jar.
pub fn version_install_plan(details: &VersionDetails) -> (r: (Vec<DownloadJob>, LauncherPath))
    ensures
        jobs_view(r.0@) == spec_install_jobs(*details),
        r.1@ == spec_client_jar(details.id@),
{
    let client_jar = client_jar_path(details);
    let mut jobs: Vec<DownloadJob> = Vec::new();
    jobs.push(DownloadJob {
        url: details.client_jar_url.clone(),
        dest: client_jar.duplicate(),
        sha1: Some(details.client_jar_sha1.clone()),
    });
    let ghost head = jobs_view(jobs@);
    let mut i: usize = 0;
    while i < details.libraries.len()
        invariant
            i <= details.libraries.len(),
            head.len() == 1,
            jobs_view(jobs@) == head + spec_library_jobs(details.libraries@.take(i as int)),
        decreases details.libraries.len() - i,
    {
        assert(details.libraries@.take(i + 1).drop_last() == details.libraries@.take(i as int));
        assert(details.libraries@.take(i + 1).last() == details.libraries@[i as int]);
        match &details.libraries[i].artifact {
            Some(a) => {
                let url = opt_str_or_empty(&a.url);
                let path = opt_str_or_empty(&a.path);
                if !url.as_str().is_empty() && !path.as_str().is_empty() {
                    let dest = libraries_dir().join(path.as_str());
                    let ghost before = jobs_view(jobs@);
                    jobs.push(DownloadJob { url, dest, sha1: opt_clone(&a.sha1) });
                    assert(jobs_view(jobs@) =~= before.push(jobs_view(jobs@).last()));
                }
            },
            None => {},
        }
        i = i + 1;
    }
    proof {
        assert(details.libraries@.take(details.libraries.len() as int) == details.libraries@);
    }
    let ghost with_libs = jobs_view(jobs@);
    if !details.asset_index_url.as_str().is_empty() {
        let name = cat(details.asset_index_id.as_str(), ".json");
        let dest = assets_dir().join("indexes").join(name.as_str());
        jobs.push(DownloadJob { url: details.asset_index_url.clone(), dest, sha1: None });
        assert(jobs_view(jobs@) =~= with_libs.push(jobs_view(jobs@).last()));
    }
    (jobs, client_jar)
}

/// How to start the game.
#[derive(Debug, Clone, PartialEq, Eq)]
pub struct LaunchOptions {
    pub java_path: String,
    pub memory_min_mb: u32,
    pub memory_max_mb: u32,
    /// The game folder.
    pub game_dir: PathArg,
    pub width: u32,
    pub height: u32,
    /// Extra classpath entries (e.g. the mod loader's jars), placed before the vanilla libraries.
    pub extra_classpath: Vec<PathArg>,
    /// When set, replaces the vanilla main class (e.g. KnotClient for Fabric).
    pub override_main_class: Option<String>,
}

/// The classpath entries of the libraries that name an artifact path, in order.
pub open spec fn spec_library_classpath(libs: Seq<Library>) -> Seq<PathArgView>
    decreases libs.len(),
{
    if libs.len() == 0 {
        Seq::empty()
    } else {
        let prev = spec_library_classpath(libs.drop_last());
        match libs.last().artifact {
            Some(a) => match a.path {
                Some(p) => prev.push(PathArgView::Data(spec_libraries_dir().push(p@))),
                None => prev,
            },
            None => prev,
        }
    }
}

/// The classpath: the extra entries, the libraries, then the client jar.
pub open spec fn spec_classpath(d: VersionDetails, o: LaunchOptions) -> Seq<PathArgView> {
    path_args_view(o.extra_classpath@)
        + spec_library_classpath(d.libraries@)
        + seq![PathArgView::Data(spec_client_jar(d.id@))]
}

pub open spec fn spec_main_class(d: VersionDetails, o: LaunchOptions) -> Seq<char> {
    match o.override_main_class {
        Some(m) => m@,
        None => d.main_class@,
    }
}

pub open spec fn text(s: Seq<char>) -> CommandArgView {
    CommandArgView::Text(s)
}

/// A path as an argument on its own.
pub open spec fn path_as_arg(p: PathArgView) -> CommandArgView {
    match p {
        PathArgView::Given(s) => CommandArgView::Text(s),
        PathArgView::Data(d) => CommandArgView::DataPath(Seq::empty(), d),
    }
}

fn path_arg(p: &PathArg) -> (r: CommandArg)
    ensures
        r@ == path_as_arg(p@),
{
    match p {
        PathArg::Given(s) => CommandArg::Text(s.clone()),
        PathArg::Data(d) => CommandArg::DataPath(String::new(), d.duplicate()),
    }
}

fn copy_path_arg(p: &PathArg) -> (r: PathArg)
    ensures
        r@ == p@,
{
    match p {
        PathArg::Given(s) => PathArg::Given(s.clone()),
        PathArg::Data(d) => PathArg::Data(d.duplicate()),
    }
}

/// The `java` command that starts the game in the game folder.
pub open spec fn spec_launch(d: VersionDetails, a: MinecraftAccount, o: LaunchOptions) -> ProcessSpecView {
    ProcessSpecView {
        program: o.java_path@,
        working_dir: Some(o.game_dir@),
        args: seq![
            text("-Xms"@ + decimal(o.memory_min_mb as nat) + "M"@),
            text("-Xmx"@ + decimal(o.memory_max_mb as nat) + "M"@),
            CommandArgView::DataPath("-Djava.library.path="@, spec_versions_dir().push(d.id@).push("natives"@)),
            text("-cp"@),
            CommandArgView::Classpath(spec_classpath(d, o)),
            text(spec_main_class(d, o)),
            text("--username"@), text(a.mc_username@),
            text("--uuid"@), text(a.mc_uuid@),
            text("--accessToken"@), text(a.mc_access_token@),
            text("--version"@), text(d.id@),
            text("--gameDir"@), path_as_arg(o.game_dir@),
            text("--assetsDir"@), CommandArgView::DataPath(Seq::empty(), spec_assets_dir()),
            text("--assetIndex"@), text(d.asset_index_id@),
            text("--userType"@), text("msa"@),
            text("--width"@), text(decimal(o.width as nat)),
            text("--height"@), text(decimal(o.height as nat)),
        ],
        piped_stdio: false,
    }
}

/// The game folder the command names after `--gameDir` is exactly the
/// options' game folder, the folder the command also runs in.
pub proof fn lemma_game_dir_argument(d: VersionDetails, a: MinecraftAccount, o: LaunchOptions)
    ensures
        spec_launch(d, a, o).args.len() == 26,
        spec_launch(d, a, o).args[14] == CommandArgView::Text("--gameDir"@),
        spec_launch(d, a, o).working_dir == Some(o.game_dir@),
        match o.game_dir@ {
            PathArgView::Data(p) => spec_launch(d, a, o).args[15] == CommandArgView::DataPath(Seq::empty(), p),
            PathArgView::Given(s) => spec_launch(d, a, o).args[15] == CommandArgView::Text(s),
        },
{
}

/// The launch command runs the options' Java with the memory bounds first; the
/// classpath holds the extra entries first and the client jar last; the main
/// class is the override when there is one; each game option is followed by
/// its value: the account's name, UUID and token, the version, the asset
/// index, the window size.
pub proof fn lemma_launch_command(d: VersionDetails, a: MinecraftAccount, o: LaunchOptions)
    ensures
        ({
            let c = spec_launch(d, a, o);
            let n = path_args_view(o.extra_classpath@).len();
            &&& c.program == o.java_path@
            &&& !c.piped_stdio
            &&& c.args.len() == 26
            &&& c.args[0] == CommandArgView::Text("-Xms"@ + decimal(o.memory_min_mb as nat) + "M"@)
            &&& c.args[1] == CommandArgView::Text("-Xmx"@ + decimal(o.memory_max_mb as nat) + "M"@)
            &&& c.args[3] == CommandArgView::Text("-cp"@)
            &&& c.args[4] matches CommandArgView::Classpath(cp)
                && cp.len() == n + spec_library_classpath(d.libraries@).len() + 1
                && cp.take(n as int) == path_args_view(o.extra_classpath@)
                && cp.last() == PathArgView::Data(spec_versions_dir().push(d.id@).push(d.id@ + ".jar"@))
            &&& c.args[5] == CommandArgView::Text(match o.override_main_class {
                Some(m) => m@,
                None => d.main_class@,
            })
            &&& c.args[6] == CommandArgView::Text("--username"@) && c.args[7] == CommandArgView::Text(a.mc_username@)
            &&& c.args[8] == CommandArgView::Text("--uuid"@) && c.args[9] == CommandArgView::Text(a.mc_uuid@)
            &&& c.args[10] == CommandArgView::Text("--accessToken"@)
                && c.args[11] == CommandArgView::Text(a.mc_access_token@)
            &&& c.args[12] == CommandArgView::Text("--version"@) && c.args[13] == CommandArgView::Text(d.id@)
            &&& c.args[16] == CommandArgView::Text("--assetsDir"@)
            &&& c.args[18] == CommandArgView::Text("--assetIndex"@)
                && c.args[19] == CommandArgView::Text(d.asset_index_id@)
            &&& c.args[20] == CommandArgView::Text("--userType"@) && c.args[21] == CommandArgView::Text("msa"@)
            &&& c.args[22] == CommandArgView::Text("--width"@) && c.args[23] == CommandArgView::Text(decimal(o.width as nat))
            &&& c.args[24] == CommandArgView::Text("--height"@)
                && c.args[25] == CommandArgView::Text(decimal(o.height as nat))
        }),
{
    let cp = spec_classpath(d, o);
    let n = path_args_view(o.extra_classpath@).len();
    assert(cp.take(n as int) =~= path_args_view(o.extra_classpath@));
}

fn memory_arg(prefix: &str, mb: u32) -> (r: CommandArg)
    ensures
        r@ == text(prefix@ + decimal(mb as nat) + "M"@),
{
    let d = decimal_u64(mb as u64);
    let head = cat(prefix, d.as_str());
    CommandArg::Text(cat(head.as_str(), "M"))
}

fn number_arg(n: u32) -> (r: CommandArg)
    ensures
        r@ == text(decimal(n as nat)),
{
    CommandArg::Text(decimal_u64(n as u64))
}

fn owned_arg(s: &String) -> (r: CommandArg)
    ensures
        r@ == text(s@),
{
    CommandArg::Text(s.clone())
}

/// The classpath entries: extras, libraries with an artifact path, client jar.
pub fn classpath(details: &VersionDetails, opts: &LaunchOptions) -> (r: Vec<PathArg>)
    ensures
        path_args_view(r@) == spec_classpath(*details, *opts),
{
    let mut cp: Vec<PathArg> = Vec::new();
    let mut i: usize = 0;
    let ghost extras = path_args_view(opts.extra_classpath@);
    while i < opts.extra_classpath.len()
        invariant
            i <= opts.extra_classpath.len(),
            extras == path_args_view(opts.extra_classpath@),
            path_args_view(cp@) == extras.take(i as int),
        decreases opts.extra_classpath.len() - i,
    {
        let ghost before = path_args_view(cp@);
        cp.push(copy_path_arg(&opts.extra_classpath[i]));
        assert(extras[i as int] == opts.extra_classpath@[i as int]@);
        assert(path_args_view(cp@) =~= before.push(extras[i as int]));
        assert(extras.take(i + 1) =~= extras.take(i as int).push(extras[i as int]));
        i = i + 1;
    }
    assert(extras.take(opts.extra_classpath.len() as int) == extras);
    let mut j: usize = 0;
    while j < details.libraries.len()
        invariant
            j <= details.libraries.len(),
            path_args_view(cp@) == extras + spec_library_classpath(details.libraries@.take(j as int)),
        decreases details.libraries.len() - j,
    {
        assert(details.libraries@.take(j + 1).drop_last() == details.libraries@.take(j as int));
        assert(details.libraries@.take(j + 1).last() == details.libraries@[j as int]);
        match &details.libraries[j].artifact {
            Some(a) => match &a.path {
                Some(p) => {
                    let ghost before = path_args_view(cp@);
                    cp.push(PathArg::Data(libraries_dir().join(p.as_str())));
                    assert(path_args_view(cp@) =~= before.push(path_args_view(cp@).last()));
                },
                None => {},
            },
            None => {},
        }
        j = j + 1;
    }
    assert(details.libraries@.take(details.libraries.len() as int) == details.libraries@);
    let ghost before = path_args_view(cp@);
    cp.push(PathArg::Data(client_jar_path(details)));
    assert(path_args_view(cp@) =~= before + seq![PathArgView::Data(spec_client_jar(details.id@))]);
    cp
}

/// The command that starts Minecraft for `account` (the application creates
/// the game folder and spawns it).
pub fn launch(details: &VersionDetails, account: &MinecraftAccount, opts: &LaunchOptions) -> (r: ProcessSpec)
    ensures
        r@ == spec_launch(*details, *account, *opts),
{
    let main_class = match &opts.override_main_class {
        Some(m) => m.clone(),
        None => details.main_class.clone(),
    };
    let natives = versions_dir().join(details.id.as_str()).join("natives");
    let mut args: Vec<CommandArg> = Vec::new();
    args.push(memory_arg("-Xms", opts.memory_min_mb));
    args.push(memory_arg("-Xmx", opts.memory_max_mb));
    args.push(CommandArg::DataPath("-Djava.library.path=".to_owned(), natives));
    args.push(text_arg("-cp"));
    args.push(CommandArg::Classpath(classpath(details, opts)));
    args.push(CommandArg::Text(main_class));
    args.push(text_arg("--username"));
    args.push(owned_arg(&account.mc_username));
    args.push(text_arg("--uuid"));
    args.push(owned_arg(&account.mc_uuid));
    args.push(text_arg("--accessToken"));
    args.push(owned_arg(&account.mc_access_token));
    args.push(text_arg("--version"));
    args.push(owned_arg(&details.id));
    args.push(text_arg("--gameDir"));
    args.push(path_arg(&opts.game_dir));
    args.push(text_arg("--assetsDir"));
    args.push(CommandArg::DataPath(String::new(), assets_dir()));
    args.push(text_arg("--assetIndex"));
    args.push(owned_arg(&details.asset_index_id));
    args.push(text_arg("--userType"));
    args.push(text_arg("msa"));
    args.push(text_arg("--width"));
    args.push(number_arg(opts.width));
    args.push(text_arg("--height"));
    args.push(number_arg(opts.height));
    let r = ProcessSpec {
        program: opts.java_path.clone(),
        working_dir: Some(copy_path_arg(&opts.game_dir)),
        args,
        piped_stdio: false,
    };
    assert(command_args_view(r.args@) =~= spec_launch(*details, *account, *opts).args);
    r
}

} // verus!