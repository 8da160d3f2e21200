//! Mod loaders. Fabric and Quilt publish a launch profile (a main class and
//! Maven libraries) that the launcher installs itself; Forge and NeoForge are
//! installed by running their official installer.

pub mod fabric;
pub mod forge;
pub mod quilt;

use vstd::prelude::*;
use crate::http::{get_request, spec_get, HttpRequest};
use crate::minecraft::{jobs_view, DownloadJob, DownloadJobView};
use crate::paths::{libraries_dir, spec_libraries_dir, LauncherPath};
use crate::text::{cat, lemma_trim_end, replace_char, replace_char_in, split, split_char, trim_end, trim_end_char};

verus! {

/// One library of a loader profile: a Maven coordinate `group:artifact:version`
/// and the repository to fetch it from.
#[derive(Debug, Clone, PartialEq, Eq)]
pub struct ProfileLibrary {
    pub name: Option<String>,
    pub url: Option<String>,
}

/// What the launcher reads from a loader's launch profile (each field `None`
/// when absent or not a string).
#[derive(Debug, Clone, PartialEq, Eq)]
pub struct LoaderProfile {
    pub main_class: Option<String>,
    pub libraries: Vec<ProfileLibrary>,
}

/// How to start the game with a loader: its main class, the library downloads,
/// and the jars to put on the classpath.
#[derive(Debug, Clone, PartialEq, Eq)]
pub struct LoaderInstall {
    pub main_class: String,
    pub downloads: Vec<DownloadJob>,
    pub jar_paths: Vec<LauncherPath>,
}

/// The repository path of a Maven coordinate `group:artifact:version`
/// (`group/with/slashes/artifact/version/artifact-version.jar`); `None` unless
/// the name has exactly three `:`-separated parts.
pub open spec fn spec_maven_path(name: Seq<char>) -> Option<Seq<char>> {
    let parts = split(name, ':');
    if parts.len() == 3 {
        Some(replace_char(parts[0], '.', '/') + "/"@ + parts[1] + "/"@ + parts[2] + "/"@ + parts[1] + "-"@
            + parts[2] + ".jar"@)
    } else {
        None
    }
}

/// The address of a repository file: the repository url without trailing
/// slashes, a slash, the path.
pub open spec fn spec_repository_url(base: Seq<char>, path: Seq<char>) -> Seq<char> {
    trim_end(base, '/') + "/"@ + path
}

/// The repository path of `name`, when it is a `group:artifact:version` coordinate.
pub fn maven_path(name: &str) -> (r: Option<String>)
    ensures
        r.deep_view() == spec_maven_path(name@),
{
    let parts = split_char(name, ':');
    if parts.len() == 3 {
        let group_path = replace_char_in(parts[0].as_str(), '.', '/');
        let artifact = parts[1].as_str();
        let version = parts[2].as_str();
        let mut rel = cat(group_path.as_str(), "/");
        rel.append(artifact);
        rel.append("/");
        rel.append(version);
        rel.append("/");
        rel.append(artifact);
        rel.append("-");
        rel.append(version);
        rel.append(".jar");
        proof {
            assert(parts@.map_values(|p: String| p@)[0] == parts@[0]@);
            assert(parts@.map_values(|p: String| p@)[1] == parts@[1]@);
            assert(parts@.map_values(|p: String| p@)[2] == parts@[2]@);
        }
        Some(rel)
    } else {
        None
    }
}

/// The address of `path` in the repository at `base`.
pub fn repository_url(base: &str, path: &str) -> (r: String)
    ensures
        r@ == spec_repository_url(base@, path@),
{
    let mut r = trim_end_char(base, '/');
    r.append("/");
    r.append(path);
    r
}

/// A repository address is the repository url with its trailing slashes taken
/// off, one slash, then the path: exactly one slash joins them.
pub proof fn lemma_repository_url(base: Seq<char>, path: Seq<char>)
    ensures
        exists|t: Seq<char>| {
            &&& #[trigger] spec_repository_url(base, path) == t + seq!['/'] + path
            &&& t == base.take(t.len() as int)
            &&& (t.len() == 0 || t.last() != '/')
            &&& forall|i: int| t.len() <= i < base.len() ==> #[trigger] base[i] == '/'
        },
{
    lemma_trim_end(base, '/');
    reveal_strlit("/");
    let t = trim_end(base, '/');
    assert("/"@ =~= seq!['/']);
    assert(spec_repository_url(base, path) == t + seq!['/'] + path);
}

pub open spec fn lib_rel(lib: ProfileLibrary) -> Option<Seq<char>> {
    match lib.name {
        Some(n) => spec_maven_path(n@),
        None => None,
    }
}

pub open spec fn lib_base(lib: ProfileLibrary, default_repo: Seq<char>) -> Seq<char> {
    match lib.url {
        Some(u) => u@,
        None => default_repo,
    }
}

/// The downloads of the profile's libraries that have a Maven coordinate, in order.
pub open spec fn spec_profile_jobs(libs: Seq<ProfileLibrary>, default_repo: Seq<char>) -> Seq<DownloadJobView>
    decreases libs.len(),
{
    if libs.len() == 0 {
        Seq::empty()
    } else {
        let prev = spec_profile_jobs(libs.drop_last(), default_repo);
        match lib_rel(libs.last()) {
            Some(rel) => prev.push(DownloadJobView {
                url: spec_repository_url(lib_base(libs.last(), default_repo), rel),
                dest: spec_libraries_dir().push(rel),
                sha1: None,
            }),
            None => prev,
        }
    }
}

/// The classpath jars of the profile's libraries that have a Maven coordinate, in order.
pub open spec fn spec_profile_jars(libs: Seq<ProfileLibrary>) -> Seq<Seq<Seq<char>>>
    decreases libs.len(),
{
    if libs.len() == 0 {
        Seq::empty()
    } else {
        let prev = spec_profile_jars(libs.drop_last());
        match lib_rel(libs.last()) {
            Some(rel) => prev.push(spec_libraries_dir().push(rel)),
            None => prev,
        }
    }
}

/// The jars a loader puts on the classpath are exactly the files it downloads,
/// in the same order, none of them checked against a digest; every library
/// with a Maven coordinate gives one, the others none.
pub proof fn lemma_profile_jobs_and_jars(libs: Seq<ProfileLibrary>, default_repo: Seq<char>)
    ensures
        spec_profile_jobs(libs, default_repo).len() == spec_profile_jars(libs).len(),
        spec_profile_jars(libs).len() <= libs.len(),
        forall|i: int| 0 <= i < spec_profile_jars(libs).len() ==> {
            &&& (#[trigger] spec_profile_jobs(libs, default_repo)[i]).dest == spec_profile_jars(libs)[i]
            &&& spec_profile_jobs(libs, default_repo)[i].sha1 is None
        },
        (forall|k: int| 0 <= k < libs.len() ==> #[trigger] lib_rel(libs[k]) is Some)
            ==> spec_profile_jars(libs).len() == libs.len(),
    decreases libs.len(),
{
    if libs.len() > 0 {
        let prev = libs.drop_last();
        lemma_profile_jobs_and_jars(prev, default_repo);
        if forall|k: int| 0 <= k < libs.len() ==> #[trigger] lib_rel(libs[k]) is Some {
            assert forall|k: int| 0 <= k < prev.len() implies #[trigger] lib_rel(prev[k]) is Some by {
                assert(prev[k] == libs[k]);
            }
            assert(lib_rel(libs[libs.len() - 1]) is Some);
        }
        assert forall|i: int| 0 <= i < spec_profile_jars(libs).len() implies {
            &&& (#[trigger] spec_profile_jobs(libs, default_repo)[i]).dest == spec_profile_jars(libs)[i]
            &&& spec_profile_jobs(libs, default_repo)[i].sha1 is None
        } by {
            if i < spec_profile_jars(prev).len() {
                assert(spec_profile_jobs(libs, default_repo)[i] == spec_profile_jobs(prev, default_repo)[i]);
                assert(spec_profile_jars(libs)[i] == spec_profile_jars(prev)[i]);
            }
        }
    }
}

pub open spec fn paths_view(v: Seq<LauncherPath>) -> Seq<Seq<Seq<char>>> {
    v.map_values(|p: LauncherPath| p@)
}

/// Installing a loader from its profile: the profile's main class (or
/// `default_main_class`), one download per library with a Maven coordinate
/// (from its repository, or `default_repo`), and the matching jars.
pub open spec fn is_install_of(
    r: LoaderInstall,
    profile: LoaderProfile,
    default_main_class: Seq<char>,
    default_repo: Seq<char>,
) -> bool {
    &&& r.main_class@ == match profile.main_class {
        Some(m) => m@,
        None => default_main_class,
    }
    &&& jobs_view(r.downloads@) == spec_profile_jobs(profile.libraries@, default_repo)
    &&& paths_view(r.jar_paths@) == spec_profile_jars(profile.libraries@)
}

/// What installing a loader from `profile` downloads and puts on the classpath.
pub fn install_from_profile(
    profile: &LoaderProfile,
    default_main_class: &str,
    default_repo: &str,
) -> (r: LoaderInstall)
    ensures
        is_install_of(r, *profile, default_main_class@, default_repo@),
{
    let main_class = match &profile.main_class {
        Some(m) => m.clone(),
        None => default_main_class.to_owned(),
    };
    let mut downloads: Vec<DownloadJob> = Vec::new();
    let mut jar_paths: Vec<LauncherPath> = Vec::new();
    let mut i: usize = 0;
    while i < profile.libraries.len()
        invariant
            i <= profile.libraries.len(),
            jobs_view(downloads@) == spec_profile_jobs(profile.libraries@.take(i as int), default_repo@),
            paths_view(jar_paths@) == spec_profile_jars(profile.libraries@.take(i as int)),
        decreases profile.libraries.len() - i,
    {
        let ghost libs = profile.libraries@;
        assert(libs.take(i + 1).drop_last() == libs.take(i as int));
        assert(libs.take(i + 1).last() == libs[i as int]);
        match &profile.libraries[i].name {
            Some(name) => {
                match maven_path(name.as_str()) {
                    Some(rel) => {
                        let base = match &profile.libraries[i].url {
                            Some(u) => u.clone(),
                            None => default_repo.to_owned(),
                        };
                        let url = repository_url(base.as_str(), rel.as_str());
                        let dest = libraries_dir().join(rel.as_str());
                        let ghost jb = jobs_view(downloads@);
                        let ghost pb = paths_view(jar_paths@);
                        jar_paths.push(dest.duplicate());
                        downloads.push(DownloadJob { url, dest, sha1: None });
                        assert(jobs_view(downloads@) =~= jb.push(jobs_view(downloads@).last()));
                        assert(paths_view(jar_paths@) =~= pb.push(paths_view(jar_paths@).last()));
                    },
                    None => {},
                }
            },
            None => {},
        }
        i = i + 1;
    }
    assert(profile.libraries@.take(profile.libraries.len() as int) == profile.libraries@);
    LoaderInstall { main_class, downloads, jar_paths }
}

/// `<meta>/versions/loader/<mc_version>`: the loader versions for a game version.
pub open spec fn spec_loader_versions_url(meta: Seq<char>, mc_version: Seq<char>) -> Seq<char> {
    meta + "/versions/loader/"@ + mc_version
}

/// `<meta>/versions/loader/<mc_version>/<loader_version>/profile/json`
pub open spec fn spec_profile_url(meta: Seq<char>, mc_version: Seq<char>, loader_version: Seq<char>) -> Seq<char> {
    meta + "/versions/loader/"@ + mc_version + "/"@ + loader_version + "/profile/json"@
}

pub fn loader_versions_request(meta: &str, mc_version: &str) -> (r: HttpRequest)
    ensures
        r@ == spec_get(spec_loader_versions_url(meta@, mc_version@)),
{
    let head = cat(meta, "/versions/loader/");
    get_request(cat(head.as_str(), mc_version))
}

pub fn profile_request(meta: &str, mc_version: &str, loader_version: &str) -> (r: HttpRequest)
    ensures
        r@ == spec_get(spec_profile_url(meta@, mc_version@, loader_version@)),
{
    let mut url = cat(meta, "/versions/loader/");
    url.append(mc_version);
    url.append("/");
    url.append(loader_version);
    url.append("/profile/json");
    get_request(url)
}

} // verus!
