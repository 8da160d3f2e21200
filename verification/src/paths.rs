//! Layout of the launcher's data folder. A [`LauncherPath`] names a file or
//! folder by its components below the platform's per-user data folder
//! (`~/.local/share`, `%APPDATA%`, `~/Library/Application Support`); the
//! application resolves it there and creates the folders.

use vstd::prelude::*;

verus! {

/// Name of the launcher's own folder inside the platform data folder.
pub const APP_FOLDER: &'static str = "duckyluncher";

/// A location below the platform data folder, as the list of components that
/// are joined onto it one after the other.
#[derive(Debug, Clone, PartialEq, Eq)]
pub struct LauncherPath {
    pub segments: Vec<String>,
}

impl View for LauncherPath {
    type V = Seq<Seq<char>>;

    open spec fn view(&self) -> Seq<Seq<char>> {
        self.segments@.map_values(|s: String| s@)
    }
}

impl LauncherPath {
    /// A copy of this location.
    pub fn duplicate(&self) -> (r: LauncherPath)
        ensures
            r@ == self@,
    {
        let mut segments: Vec<String> = Vec::new();
        let mut i: usize = 0;
        while i < self.segments.len()
            invariant
                i <= self.segments.len(),
                segments@.map_values(|s: String| s@) == self@.take(i as int),
            decreases self.segments.len() - i,
        {
            segments.push(self.segments[i].clone());
            assert(self@.take(i + 1) == self@.take(i as int).push(self.segments@[i as int]@));
            i = i + 1;
        }
        assert(self@.take(self.segments.len() as int) == self@);
        LauncherPath { segments }
    }

    /// This location with one more component appended.
    pub fn join(&self, segment: &str) -> (r: LauncherPath)
        ensures
            r@ == self@.push(segment@),
    {
        let mut r = self.duplicate();
        r.segments.push(segment.to_owned());
        r
    }
}

/// `inner` lies inside `outer` (or is `outer` itself).
pub open spec fn is_within(inner: Seq<Seq<char>>, outer: Seq<Seq<char>>) -> bool {
    outer.len() <= inner.len() && inner.take(outer.len() as int) == outer
}

pub open spec fn spec_app_data_dir() -> Seq<Seq<char>> {
    seq![APP_FOLDER@]
}

pub open spec fn spec_instances_dir() -> Seq<Seq<char>> {
    spec_app_data_dir().push("instances"@)
}

pub open spec fn spec_instance_dir(id: Seq<char>) -> Seq<Seq<char>> {
    spec_instances_dir().push(id)
}

pub open spec fn spec_meta_dir() -> Seq<Seq<char>> {
    spec_app_data_dir().push("meta"@)
}

pub open spec fn spec_versions_dir() -> Seq<Seq<char>> {
    spec_meta_dir().push("versions"@)
}

pub open spec fn spec_libraries_dir() -> Seq<Seq<char>> {
    spec_meta_dir().push("libraries"@)
}

pub open spec fn spec_assets_dir() -> Seq<Seq<char>> {
    spec_meta_dir().push("assets"@)
}

pub open spec fn spec_accounts_file() -> Seq<Seq<char>> {
    spec_app_data_dir().push("accounts.json"@)
}

pub open spec fn spec_servers_dir() -> Seq<Seq<char>> {
    spec_app_data_dir().push("servers"@)
}

pub open spec fn spec_server_dir(id: Seq<char>) -> Seq<Seq<char>> {
    spec_servers_dir().push(id)
}

/// Root folder of the launcher's data (`<data>/duckyluncher`).
pub fn app_data_dir() -> (r: LauncherPath)
    ensures
        r@ == spec_app_data_dir(),
{
    let mut segments: Vec<String> = Vec::new();
    segments.push(APP_FOLDER.to_owned());
    let r = LauncherPath { segments };
    assert(r@ == spec_app_data_dir());
    r
}

/// Folder holding one folder per instance.
pub fn instances_dir() -> (r: LauncherPath)
    ensures
        r@ == spec_instances_dir(),
{
    app_data_dir().join("instances")
}

/// Folder of the instance with id `instance_id`.
pub fn instance_dir(instance_id: &str) -> (r: LauncherPath)
    ensures
        r@ == spec_instance_dir(instance_id@),
{
    instances_dir().join(instance_id)
}

/// Shared storage of vanilla versions, libraries and assets (shared between instances).
pub fn meta_dir() -> (r: LauncherPath)
    ensures
        r@ == spec_meta_dir(),
{
    app_data_dir().join("meta")
}

pub fn versions_dir() -> (r: LauncherPath)
    ensures
        r@ == spec_versions_dir(),
{
    meta_dir().join("versions")
}

pub fn libraries_dir() -> (r: LauncherPath)
    ensures
        r@ == spec_libraries_dir(),
{
    meta_dir().join("libraries")
}

pub fn assets_dir() -> (r: LauncherPath)
    ensures
        r@ == spec_assets_dir(),
{
    meta_dir().join("assets")
}

/// File holding the saved accounts.
pub fn accounts_file() -> (r: LauncherPath)
    ensures
        r@ == spec_accounts_file(),
{
    app_data_dir().join("accounts.json")
}

/// Folder holding the locally hosted Minecraft servers.
pub fn servers_dir() -> (r: LauncherPath)
    ensures
        r@ == spec_servers_dir(),
{
    app_data_dir().join("servers")
}

/// Folder of the server with id `server_id`.
pub fn server_dir(server_id: &str) -> (r: LauncherPath)
    ensures
        r@ == spec_server_dir(server_id@),
{
    servers_dir().join(server_id)
}

/// Every location of the layout lies inside the launcher's root folder, and the
/// per-instance and per-server folders are direct children of their parents.
pub proof fn lemma_layout_within_root(id: Seq<char>)
    ensures
        is_within(spec_instances_dir(), spec_app_data_dir()),
        is_within(spec_instance_dir(id), spec_instances_dir()),
        is_within(spec_meta_dir(), spec_app_data_dir()),
        is_within(spec_versions_dir(), spec_meta_dir()),
        is_within(spec_libraries_dir(), spec_meta_dir()),
        is_within(spec_assets_dir(), spec_meta_dir()),
        is_within(spec_accounts_file(), spec_app_data_dir()),
        is_within(spec_servers_dir(), spec_app_data_dir()),
        is_within(spec_server_dir(id), spec_servers_dir()),
        spec_instance_dir(id).len() == spec_instances_dir().len() + 1,
        spec_server_dir(id).len() == spec_servers_dir().len() + 1,
{
    assert(spec_instance_dir(id).take(2) == spec_instances_dir());
    assert(spec_server_dir(id).take(2) == spec_servers_dir());
    assert(spec_instances_dir().take(1) == spec_app_data_dir());
    assert(spec_meta_dir().take(1) == spec_app_data_dir());
    assert(spec_accounts_file().take(1) == spec_app_data_dir());
    assert(spec_servers_dir().take(1) == spec_app_data_dir());
    assert(spec_versions_dir().take(2) == spec_meta_dir());
    assert(spec_libraries_dir().take(2) == spec_meta_dir());
    assert(spec_assets_dir().take(2) == spec_meta_dir());
}

/// Distinct ids get distinct folders, and no instance folder is a server folder.
pub proof fn lemma_layout_folders_distinct(a: Seq<char>, b: Seq<char>)
    ensures
        spec_instance_dir(a) == spec_instance_dir(b) <==> a == b,
        spec_server_dir(a) == spec_server_dir(b) <==> a == b,
        !is_within(spec_instance_dir(a), spec_servers_dir()),
        !is_within(spec_server_dir(a), spec_instances_dir()),
        !is_within(spec_instance_dir(a), spec_meta_dir()),
        !is_within(spec_server_dir(a), spec_meta_dir()),
        !is_within(spec_accounts_file(), spec_instances_dir()),
        !is_within(spec_accounts_file(), spec_servers_dir()),
        !is_within(spec_accounts_file(), spec_meta_dir()),
{
    reveal_strlit("instances");
    reveal_strlit("servers");
    reveal_strlit("meta");
    reveal_strlit("accounts.json");
    assert("instances"@.len() == 9);
    assert("servers"@.len() == 7);
    assert("meta"@.len() == 4);
    assert("accounts.json"@.len() == 13);
    if spec_instance_dir(a) == spec_instance_dir(b) {
        assert(spec_instance_dir(a)[2] == a);
    }
    if spec_server_dir(a) == spec_server_dir(b) {
        assert(spec_server_dir(a)[2] == a);
    }
    assert(spec_instance_dir(a)[1] != spec_servers_dir()[1]);
    assert(spec_instance_dir(a).take(2)[1] == spec_instance_dir(a)[1]);
    assert(spec_server_dir(a).take(2)[1] == spec_server_dir(a)[1]);
    assert(spec_server_dir(a)[1] != spec_instances_dir()[1]);
    assert(spec_instance_dir(a)[1] != spec_meta_dir()[1]);
    assert(spec_server_dir(a)[1] != spec_meta_dir()[1]);
    assert(spec_accounts_file()[1] != spec_instances_dir()[1]);
    assert(spec_accounts_file()[1] != spec_servers_dir()[1]);
    assert(spec_accounts_file()[1] != spec_meta_dir()[1]);
    assert(spec_accounts_file().take(2)[1] == spec_accounts_file()[1]);
}

} // verus!
