//! The Modrinth v2 API (mods, modpacks, resource packs and shaders are all
//! "projects", told apart by `project_type` and `categories`): the requests
//! the launcher sends and the choice of the file to download.

use vstd::prelude::*;
use crate::error::LauncherError;
use crate::http::{get_request, field, HttpRequest, HttpRequestView, spec_get};
use crate::json::{json_str_lists, json_strs, json_text_of_str_lists, json_text_of_strs};
use crate::text::{cat, decimal, decimal_u64};

verus! {

pub const API_BASE: &'static str = "https://api.modrinth.com/v2";

/// Identifies the launcher to the Modrinth API, as its terms require.
pub const USER_AGENT: &'static str = "example-dev/duckyluncher/0.1.0 (contact@example.com)";

#[derive(Debug, Clone, PartialEq, Eq)]
pub struct SearchResult {
    pub hits: Vec<SearchHit>,
    pub total_hits: u64,
}

#[derive(Debug, Clone, PartialEq, Eq)]
pub struct SearchHit {
    pub project_id: String,
    pub slug: String,
    pub title: String,
    pub description: String,
    pub icon_url: Option<String>,
    pub downloads: u64,
    pub categories: Vec<String>,
    /// "mod" | "modpack" | "resourcepack" | "shader"
    pub project_type: String,
}

#[derive(Debug, Clone, PartialEq, Eq)]
pub struct ProjectVersion {
    pub id: String,
    pub project_id: String,
    pub version_number: String,
    pub game_versions: Vec<String>,
    pub loaders: Vec<String>,
    pub files: Vec<VersionFile>,
    pub dependencies: Vec<Dependency>,
}

#[derive(Debug, Clone, PartialEq, Eq)]
pub struct VersionFile {
    pub url: String,
    pub filename: String,
    pub primary: bool,
    pub hashes: FileHashes,
}

#[derive(Debug, Clone, PartialEq, Eq)]
pub struct FileHashes {
    pub sha1: String,
    pub sha512: String,
}

#[derive(Debug, Clone, PartialEq, Eq)]
pub struct Dependency {
    pub project_id: Option<String>,
    pub version_id: Option<String>,
    /// "required" | "optional" | "incompatible" | "embedded"
    pub dependency_type: String,
}

/// A catalogue search; `project_type` is "mod", "modpack", "resourcepack" or "shader".
pub struct SearchParams<'a> {
    pub query: &'a str,
    pub project_type: &'a str,
    pub game_version: Option<&'a str>,
    pub loader: Option<&'a str>,
    pub limit: u32,
    pub offset: u32,
}

/// A GET of the Modrinth API, identifying the launcher.
pub open spec fn spec_api_get(url: Seq<char>, query: Seq<(Seq<char>, Seq<char>)>) -> HttpRequestView {
    HttpRequestView { query, user_agent: Some(USER_AGENT@), ..spec_get(url) }
}

/// The facet groups of a search: the project type, then the game version and
/// the loader when they are given.
pub open spec fn spec_search_facets(
    project_type: Seq<char>,
    game_version: Option<Seq<char>>,
    loader: Option<Seq<char>>,
) -> Seq<Seq<Seq<char>>> {
    let base = seq![seq!["project_type:"@ + project_type]];
    let with_version = match game_version {
        Some(gv) => base.push(seq!["versions:"@ + gv]),
        None => base,
    };
    match loader {
        Some(l) => with_version.push(seq!["categories:"@ + l]),
        None => with_version,
    }
}

pub open spec fn spec_search_request(
    query: Seq<char>,
    project_type: Seq<char>,
    game_version: Option<Seq<char>>,
    loader: Option<Seq<char>>,
    limit: u32,
    offset: u32,
) -> HttpRequestView {
    spec_api_get(
        API_BASE@ + "/search"@,
        seq![
            ("query"@, query),
            ("facets"@, json_text_of_str_lists(spec_search_facets(project_type, game_version, loader))),
            ("limit"@, decimal(limit as nat)),
            ("offset"@, decimal(offset as nat)),
        ],
    )
}

pub open spec fn opt_str_view(o: Option<&str>) -> Option<Seq<char>> {
    match o {
        Some(s) => Some(s@),
        None => None,
    }
}

fn one_facet(prefix: &str, value: &str) -> (r: Vec<String>)
    ensures
        r@.map_values(|s: String| s@) == seq![prefix@ + value@],
{
    let mut v: Vec<String> = Vec::new();
    v.push(cat(prefix, value));
    assert(v@.map_values(|s: String| s@) =~= seq![prefix@ + value@]);
    v
}

/// The catalogue search request (`GET /search`).
pub fn search_request(params: &SearchParams) -> (r: HttpRequest)
    ensures
        r@ == spec_search_request(
            params.query@,
            params.project_type@,
            opt_str_view(params.game_version),
            opt_str_view(params.loader),
            params.limit,
            params.offset,
        ),
{
    let ghost expected = spec_search_facets(
        params.project_type@,
        opt_str_view(params.game_version),
        opt_str_view(params.loader),
    );
    let mut facets: Vec<Vec<String>> = Vec::new();
    facets.push(one_facet("project_type:", params.project_type));
    match params.game_version {
        Some(gv) => facets.push(one_facet("versions:", gv)),
        None => {},
    }
    match params.loader {
        Some(l) => facets.push(one_facet("categories:", l)),
        None => {},
    }
    assert(crate::json::str_lists_view(facets@) =~= expected);
    let facets_json = json_str_lists(&facets);
    let limit = decimal_u64(params.limit as u64);
    let offset = decimal_u64(params.offset as u64);
    let mut query: Vec<(String, String)> = Vec::new();
    query.push(field("query", params.query));
    query.push(field("facets", facets_json.as_str()));
    query.push(field("limit", limit.as_str()));
    query.push(field("offset", offset.as_str()));
    let mut r = get_request(cat(API_BASE, "/search"));
    r.query = query;
    r.user_agent = Some(USER_AGENT.to_owned());
    assert(r.query.deep_view() =~= seq![
        ("query"@, params.query@),
        ("facets"@, json_text_of_str_lists(expected)),
        ("limit"@, decimal(params.limit as nat)),
        ("offset"@, decimal(params.offset as nat)),
    ]);
    r
}

pub open spec fn spec_project_versions_request(
    project_id_or_slug: Seq<char>,
    game_version: Option<Seq<char>>,
    loader: Option<Seq<char>>,
) -> HttpRequestView {
    let q1: Seq<(Seq<char>, Seq<char>)> = match game_version {
        Some(gv) => seq![("game_versions"@, json_text_of_strs(seq![gv]))],
        None => Seq::empty(),
    };
    let q2 = match loader {
        Some(l) => q1.push(("loaders"@, json_text_of_strs(seq![l]))),
        None => q1,
    };
    spec_api_get(API_BASE@ + "/project/"@ + project_id_or_slug + "/version"@, q2)
}

fn one_str(s: &str) -> (r: Vec<String>)
    ensures
        r@.map_values(|x: String| x@) == seq![s@],
{
    let mut v: Vec<String> = Vec::new();
    v.push(s.to_owned());
    assert(v@.map_values(|x: String| x@) =~= seq![s@]);
    v
}

/// The versions of a project, optionally limited to a game version and a loader
/// (`GET /project/{id}/version`).
pub fn project_versions_request(
    project_id_or_slug: &str,
    game_version: Option<&str>,
    loader: Option<&str>,
) -> (r: HttpRequest)
    ensures
        r@ == spec_project_versions_request(
            project_id_or_slug@,
            opt_str_view(game_version),
            opt_str_view(loader),
        ),
{
    let mut query: Vec<(String, String)> = Vec::new();
    match game_version {
        Some(gv) => {
            let list = one_str(gv);
            let text = json_strs(&list);
            query.push(field("game_versions", text.as_str()));
        },
        None => {},
    }
    let ghost q1 = query.deep_view();
    match loader {
        Some(l) => {
            let list = one_str(l);
            let text = json_strs(&list);
            query.push(field("loaders", text.as_str()));
            assert(query.deep_view() =~= q1.push(("loaders"@, json_text_of_strs(seq![l@]))));
        },
        None => {},
    }
    let head = cat(API_BASE, "/project/");
    let middle = cat(head.as_str(), project_id_or_slug);
    let mut r = get_request(cat(middle.as_str(), "/version"));
    r.query = query;
    r.user_agent = Some(USER_AGENT.to_owned());
    proof {
        let expected = spec_project_versions_request(
            project_id_or_slug@,
            opt_str_view(game_version),
            opt_str_view(loader),
        );
        match game_version {
            Some(gv) => assert(q1 =~= seq![("game_versions"@, json_text_of_strs(seq![gv@]))]),
            None => assert(q1 =~= Seq::<(Seq<char>, Seq<char>)>::empty()),
        }
        assert(r@.query == expected.query);
    }
    r
}

/// The facet groups of a search: the project type first; a given game version
/// adds its `versions:` group and a given loader its `categories:` group, each
/// whatever the other is; there is no other group.
pub proof fn lemma_search_facets(project_type: Seq<char>, game_version: Option<Seq<char>>, loader: Option<Seq<char>>)
    ensures
        spec_search_facets(project_type, game_version, loader).len()
            == 1 + (if game_version is Some { 1int } else { 0int }) + (if loader is Some { 1int } else { 0int }),
        spec_search_facets(project_type, game_version, loader)[0] == seq!["project_type:"@ + project_type],
        game_version matches Some(gv) ==> spec_search_facets(project_type, game_version, loader)[1]
            == seq!["versions:"@ + gv],
        loader matches Some(l) ==> spec_search_facets(project_type, game_version, loader).last()
            == seq!["categories:"@ + l],
        game_version is None && loader is None ==> spec_search_facets(project_type, game_version, loader)
            == seq![seq!["project_type:"@ + project_type]],
{
}

/// The search request sends the query, the facet groups as JSON, the limit and
/// the offset, in that order, to `/search`.
pub proof fn lemma_search_request(
    query: Seq<char>,
    project_type: Seq<char>,
    game_version: Option<Seq<char>>,
    loader: Option<Seq<char>>,
    limit: u32,
    offset: u32,
)
    ensures
        ({
            let r = spec_search_request(query, project_type, game_version, loader, limit, offset);
            &&& r.url == API_BASE@ + "/search"@
            &&& r.query.len() == 4
            &&& r.query[0] == ("query"@, query)
            &&& r.query[1] == ("facets"@, json_text_of_str_lists(spec_search_facets(project_type, game_version, loader)))
            &&& r.query[2] == ("limit"@, decimal(limit as nat))
            &&& r.query[3] == ("offset"@, decimal(offset as nat))
        }),
{
}

/// The versions of a project are asked with a `game_versions` parameter exactly
/// when a game version is given (then first, whatever the loader) and a
/// `loaders` parameter exactly when a loader is given (then last), each the
/// JSON list of that one value.
pub proof fn lemma_project_versions_query(project: Seq<char>, game_version: Option<Seq<char>>, loader: Option<Seq<char>>)
    ensures
        spec_project_versions_request(project, game_version, loader).url == API_BASE@ + "/project/"@ + project
            + "/version"@,
        spec_project_versions_request(project, game_version, loader).query.len()
            == (if game_version is Some { 1int } else { 0int }) + (if loader is Some { 1int } else { 0int }),
        game_version matches Some(gv) ==> spec_project_versions_request(project, game_version, loader).query[0]
            == ("game_versions"@, json_text_of_strs(seq![gv])),
        loader matches Some(l) ==> spec_project_versions_request(project, game_version, loader).query.last()
            == ("loaders"@, json_text_of_strs(seq![l])),
{
}

/// One version of a project (`GET /version/{id}`).
pub fn get_version_request(version_id: &str) -> (r: HttpRequest)
    ensures
        r@ == spec_api_get(API_BASE@ + "/version/"@ + version_id@, Seq::empty()),
{
    let head = cat(API_BASE, "/version/");
    let mut r = get_request(cat(head.as_str(), version_id));
    r.user_agent = Some(USER_AGENT.to_owned());
    r
}

/// Index of the first file marked primary, or -1 when none is.
pub open spec fn first_primary(files: Seq<VersionFile>) -> int
    decreases files.len(),
{
    if files.len() == 0 {
        -1
    } else {
        let k = first_primary(files.drop_last());
        if k >= 0 {
            k
        } else if files.last().primary {
            files.len() - 1
        } else {
            -1
        }
    }
}

/// The file to download for a version: the first primary one, else the first one.
pub open spec fn spec_download_choice(files: Seq<VersionFile>) -> Option<int> {
    if first_primary(files) >= 0 {
        Some(first_primary(files))
    } else if files.len() > 0 {
        Some(0)
    } else {
        None
    }
}

pub proof fn lemma_first_primary(files: Seq<VersionFile>)
    ensures
        -1 <= first_primary(files) < files.len(),
        first_primary(files) >= 0 ==> files[first_primary(files)].primary,
        forall|j: int| 0 <= j < files.len() && (first_primary(files) < 0 || j < first_primary(files))
            ==> !#[trigger] files[j].primary,
    decreases files.len(),
{
    if files.len() > 0 {
        lemma_first_primary(files.drop_last());
        assert forall|j: int| 0 <= j < files.len() && (first_primary(files) < 0 || j < first_primary(files))
            implies !#[trigger] files[j].primary by {
            if j < files.len() - 1 {
                assert(files[j] == files.drop_last()[j]);
            }
        }
    }
}

/// The file `download_version_file` fetches: the first primary file, else the
/// first file; an error when the version lists none.
pub fn download_choice(version: &ProjectVersion) -> (r: Result<&VersionFile, LauncherError>)
    ensures
        match spec_download_choice(version.files@) {
            Some(k) => r is Ok && *r->Ok_0 == version.files@[k],
            None => r == Err::<&VersionFile, LauncherError>(LauncherError::NoVersionFile),
        },
{
    let mut i: usize = 0;
    while i < version.files.len()
        invariant
            i <= version.files.len(),
            first_primary(version.files@.take(i as int)) == -1,
        decreases version.files.len() - i,
    {
        assert(version.files@.take(i + 1).drop_last() == version.files@.take(i as int));
        if version.files[i].primary {
            proof {
                lemma_first_primary(version.files@);
                lemma_first_primary(version.files@.take(i as int));
                let k = first_primary(version.files@);
                if 0 <= k < i {
                    assert(version.files@.take(i as int)[k] == version.files@[k]);
                    assert(!version.files@.take(i as int)[k].primary);
                }
                if k < 0 || k > i {
                    assert(!version.files@[i as int].primary);
                }
                assert(k == i);
                assert(spec_download_choice(version.files@) == Some(i as int));
            }
            return Ok(&version.files[i]);
        }
        i = i + 1;
    }
    proof {
        assert(version.files@.take(version.files.len() as int) == version.files@);
    }
    if version.files.len() > 0 {
        Ok(&version.files[0])
    } else {
        Err(LauncherError::NoVersionFile)
    }
}

} // verus!
