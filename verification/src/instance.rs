//! An instance is an isolated game folder (mods/, resourcepacks/, shaderpacks/,
//! saves/, config/...) tied to a Minecraft version and a mod loader, with the
//! list of the Modrinth mods installed in it.

use vstd::prelude::*;
use crate::identity::{
    is_uuid_v4_text, new_uuid_v4, now_utc, Dated, Timestamp,
};
use crate::loaders::{paths_view, LoaderInstall};
use crate::minecraft::{spec_launch, LaunchOptions, VersionDetails};
use crate::auth::MinecraftAccount;
use crate::error::LauncherError;
use crate::modrinth::{download_choice, spec_download_choice, ProjectVersion};
use crate::process::{path_args_view, CommandArgView, PathArg, PathArgView};
use crate::paths::{instance_dir, spec_instance_dir, LauncherPath};
use crate::text::str_eq;

verus! {

#[derive(Debug, Clone, Copy, PartialEq, Eq, Structural)]
pub enum Loader {
    Vanilla,
    Fabric,
    Quilt,
    Forge,
    NeoForge,
}

#[derive(Debug, Clone, PartialEq, Eq)]
pub struct InstalledMod {
    pub project_id: String,
    pub version_id: String,
    pub filename: String,
    pub name: String,
}

pub struct InstalledModView {
    pub project_id: Seq<char>,
    pub version_id: Seq<char>,
    pub filename: Seq<char>,
    pub name: Seq<char>,
}

impl View for InstalledMod {
    type V = InstalledModView;

    open spec fn view(&self) -> InstalledModView {
        InstalledModView {
            project_id: self.project_id@,
            version_id: self.version_id@,
            filename: self.filename@,
            name: self.name@,
        }
    }
}

#[derive(Debug, Clone, PartialEq, Eq)]
pub struct Instance {
    pub id: String,
    pub name: String,
    pub mc_version: String,
    pub loader: Loader,
    pub loader_version: Option<String>,
    pub icon: Option<String>,
    pub memory_min_mb: u32,
    pub memory_max_mb: u32,
    pub java_path: Option<String>,
    pub mods: Vec<InstalledMod>,
    pub created_at: Timestamp,
}

pub open spec fn mods_view(mods: Seq<InstalledMod>) -> Seq<InstalledModView> {
    mods.map_values(|m: InstalledMod| m@)
}

impl Dated for Instance {
    open spec fn created(&self) -> Timestamp {
        self.created_at
    }

    fn created_at(&self) -> (t: Timestamp) {
        self.created_at
    }
}

/// The loader named by the user interface: "fabric", "quilt", "forge",
/// "neoforge", anything else meaning vanilla.
pub open spec fn spec_loader_named(name: Seq<char>) -> Loader {
    if name == "fabric"@ {
        Loader::Fabric
    } else if name == "quilt"@ {
        Loader::Quilt
    } else if name == "forge"@ {
        Loader::Forge
    } else if name == "neoforge"@ {
        Loader::NeoForge
    } else {
        Loader::Vanilla
    }
}

pub fn loader_named(name: &str) -> (r: Loader)
    ensures
        r == spec_loader_named(name@),
{
    if str_eq(name, "fabric") {
        Loader::Fabric
    } else if str_eq(name, "quilt") {
        Loader::Quilt
    } else if str_eq(name, "forge") {
        Loader::Forge
    } else if str_eq(name, "neoforge") {
        Loader::NeoForge
    } else {
        Loader::Vanilla
    }
}

/// Index of the first mod of `project_id`, or -1 when none is installed.
pub open spec fn index_of_project(mods: Seq<InstalledModView>, project_id: Seq<char>) -> int
    decreases mods.len(),
{
    if mods.len() == 0 {
        -1
    } else {
        let k = index_of_project(mods.drop_last(), project_id);
        if k >= 0 {
            k
        } else if mods.last().project_id == project_id {
            mods.len() - 1
        } else {
            -1
        }
    }
}

/// The mod list after installing `m`: any mod of the same project is replaced,
/// and `m` comes last.
pub open spec fn spec_install_mod(mods: Seq<InstalledModView>, m: InstalledModView) -> Seq<InstalledModView> {
    mods.filter(|x: InstalledModView| x.project_id != m.project_id).push(m)
}

/// The mod list after removing the first mod of `project_id`, if any.
pub open spec fn spec_remove_mod(mods: Seq<InstalledModView>, project_id: Seq<char>) -> Seq<InstalledModView> {
    let k = index_of_project(mods, project_id);
    if k >= 0 {
        mods.remove(k)
    } else {
        mods
    }
}

/// No project has two mods in the list.
pub open spec fn projects_unique(mods: Seq<InstalledModView>) -> bool {
    forall|a: int, b: int| 0 <= a < b < mods.len() ==> mods[a].project_id != mods[b].project_id
}

/// Everything but the mod list is the same in `a` and `b`.
pub open spec fn same_settings(a: Instance, b: Instance) -> bool {
    &&& a.id@ == b.id@
    &&& a.name@ == b.name@
    &&& a.mc_version@ == b.mc_version@
    &&& a.loader == b.loader
    &&& a.loader_version.deep_view() == b.loader_version.deep_view()
    &&& a.icon.deep_view() == b.icon.deep_view()
    &&& a.memory_min_mb == b.memory_min_mb
    &&& a.memory_max_mb == b.memory_max_mb
    &&& a.java_path.deep_view() == b.java_path.deep_view()
    &&& a.created_at == b.created_at
}

pub open spec fn is_fresh_instance(
    r: Instance,
    name: Seq<char>,
    mc_version: Seq<char>,
    loader: Loader,
    loader_version: Option<Seq<char>>,
) -> bool {
    &&& r.name@ == name
    &&& r.mc_version@ == mc_version
    &&& r.loader == loader
    &&& r.loader_version.deep_view() == loader_version
    &&& r.icon is None
    &&& r.memory_min_mb == 1024
    &&& r.memory_max_mb == 4096
    &&& r.java_path is None
    &&& r.mods@.len() == 0
}

impl Instance {
    /// A new instance with the given identity: 1024 to 4096 MB of memory, the
    /// default Java, no icon and no mods.
    pub fn with_identity(
        id: String,
        created_at: Timestamp,
        name: &str,
        mc_version: &str,
        loader: Loader,
        loader_version: Option<String>,
    ) -> (r: Instance)
        ensures
            r.id@ == id@,
            r.created_at == created_at,
            is_fresh_instance(r, name@, mc_version@, loader, loader_version.deep_view()),
    {
        Instance {
            id,
            name: name.to_owned(),
            mc_version: mc_version.to_owned(),
            loader,
            loader_version,
            icon: None,
            memory_min_mb: 1024,
            memory_max_mb: 4096,
            java_path: None,
            mods: Vec::new(),
            created_at,
        }
    }

    /// A new instance with a random UUID as its id, created now.
    pub fn new(name: &str, mc_version: &str, loader: Loader, loader_version: Option<String>) -> (r: Instance)
        ensures
            is_uuid_v4_text(r.id@),
            is_fresh_instance(r, name@, mc_version@, loader, loader_version.deep_view()),
            r.created_at.nanos < 1_000_000_000,
    {
        let id = new_uuid_v4();
        let created_at = now_utc();
        Instance::with_identity(id, created_at, name, mc_version, loader, loader_version)
    }

    /// The instance's game folder.
    pub fn dir(&self) -> (r: LauncherPath)
        ensures
            r@ == spec_instance_dir(self.id@),
    {
        instance_dir(self.id.as_str())
    }

    pub fn mods_dir(&self) -> (r: LauncherPath)
        ensures
            r@ == spec_instance_dir(self.id@).push("mods"@),
    {
        self.dir().join("mods")
    }

    pub fn resourcepacks_dir(&self) -> (r: LauncherPath)
        ensures
            r@ == spec_instance_dir(self.id@).push("resourcepacks"@),
    {
        self.dir().join("resourcepacks")
    }

    pub fn shaderpacks_dir(&self) -> (r: LauncherPath)
        ensures
            r@ == spec_instance_dir(self.id@).push("shaderpacks"@),
    {
        self.dir().join("shaderpacks")
    }

    /// The file the instance is saved in.
    pub fn manifest_path(&self) -> (r: LauncherPath)
        ensures
            r@ == spec_instance_dir(self.id@).push("instance.json"@),
    {
        self.dir().join("instance.json")
    }
}

/// Records in `instance` the mod of `project_id` whose `version` was just
/// downloaded as `filename`: a mod of the same project is replaced, and the new
/// one comes last. The caller saves the instance afterwards.
pub fn install_mod(
    instance: &mut Instance,
    project_id: &str,
    version: &ProjectVersion,
    filename: String,
    display_name: &str,
)
    ensures
        same_settings(*final(instance), *old(instance)),
        mods_view(final(instance).mods@) == spec_install_mod(
            mods_view(old(instance).mods@),
            InstalledModView {
                project_id: project_id@,
                version_id: version.id@,
                filename: filename@,
                name: display_name@,
            },
        ),
{
    let ghost old_mods = mods_view(instance.mods@);
    let ghost pred = |x: InstalledModView| x.project_id != project_id@;
    let mut rest: Vec<InstalledMod> = Vec::new();
    std::mem::swap(&mut rest, &mut instance.mods);
    let mut kept: Vec<InstalledMod> = Vec::new();
    let ghost mut i: int = 0;
    while rest.len() > 0
        invariant
            0 <= i <= old_mods.len(),
            pred == (|x: InstalledModView| x.project_id != project_id@),
            rest@.len() == old_mods.len() - i,
            mods_view(rest@) == old_mods.skip(i),
            mods_view(kept@) == old_mods.take(i).filter(pred),
        decreases rest@.len(),
    {
        let ghost before = rest@;
        let m = rest.remove(0);
        proof {
            assert(mods_view(before)[0] == before[0]@);
            assert(old_mods.skip(i)[0] == old_mods[i]);
            assert(m@ == old_mods[i]);
            assert forall|k: int| 0 <= k < rest@.len() implies #[trigger] mods_view(rest@)[k] == old_mods.skip(i + 1)[k] by {
                assert(rest@[k] == before[k + 1]);
                assert(mods_view(before)[k + 1] == before[k + 1]@);
                assert(old_mods.skip(i)[k + 1] == old_mods[i + 1 + k]);
            }
            assert(old_mods.take(i + 1).drop_last() == old_mods.take(i));
            assert(old_mods.take(i + 1).last() == m@);
            reveal(Seq::filter);
            assert(mods_view(rest@) =~= old_mods.skip(i + 1));
        }
        let ghost mv = m@;
        let ghost kept_before = mods_view(kept@);
        let keep = !str_eq(m.project_id.as_str(), project_id);
        assert(keep == pred(mv));
        if keep {
            kept.push(m);
            assert(mods_view(kept@) =~= kept_before.push(mv));
        }
        proof {
            reveal(Seq::filter);
            let t = old_mods.take(i + 1);
            assert(t.drop_last() == old_mods.take(i));
            assert(t.last() == mv);
            assert(t.filter(pred) == if pred(mv) {
                old_mods.take(i).filter(pred).push(mv)
            } else {
                old_mods.take(i).filter(pred)
            });
            if pred(mv) {
                assert(mods_view(kept@) == t.filter(pred));
            } else {
                assert(mods_view(kept@) == kept_before);
                assert(mods_view(kept@) == t.filter(pred));
            }
            i = i + 1;
            assert(old_mods.take(i) == t);
        }
    }
    proof {
        assert(old_mods.take(i) =~= old_mods);
    }
    kept.push(InstalledMod {
        project_id: project_id.to_owned(),
        version_id: version.id.clone(),
        filename,
        name: display_name.to_owned(),
    });
    instance.mods = kept;
    proof {
        assert(mods_view(instance.mods@) =~= spec_install_mod(
            old_mods,
            InstalledModView {
                project_id: project_id@,
                version_id: version.id@,
                filename: filename@,
                name: display_name@,
            },
        ));
    }
}

pub proof fn lemma_index_of_project(mods: Seq<InstalledModView>, project_id: Seq<char>)
    ensures
        -1 <= index_of_project(mods, project_id) < mods.len(),
        index_of_project(mods, project_id) >= 0
            ==> mods[index_of_project(mods, project_id)].project_id == project_id,
        forall|j: int| 0 <= j < mods.len()
            && (index_of_project(mods, project_id) < 0 || j < index_of_project(mods, project_id))
            ==> #[trigger] mods[j].project_id != project_id,
    decreases mods.len(),
{
    if mods.len() > 0 {
        lemma_index_of_project(mods.drop_last(), project_id);
        assert forall|j: int| 0 <= j < mods.len()
            && (index_of_project(mods, project_id) < 0 || j < index_of_project(mods, project_id))
            implies #[trigger] mods[j].project_id != project_id by {
            if j < mods.len() - 1 {
                assert(mods[j] == mods.drop_last()[j]);
            }
        }
    }
}

/// The installation of a Modrinth mod in progress: the instance, and the mod
/// to record once its file is downloaded.
pub struct ModInstall {
    pub instance: Instance,
    pub project_id: String,
    pub version: ProjectVersion,
    pub display_name: String,
}

/// What the application reports back about the mod's download.
pub enum ModInstallEvent {
    /// The file was written; its name in the mods folder.
    Downloaded(String),
    /// The download failed; the text says why.
    DownloadFailed(String),
}

/// What installing a mod does next: download the file at the URL to the
/// location (replacing a file already there), save the instance that now
/// records the mod, or stop with an error.
pub enum ModInstallAction {
    Download(ModInstall, String, LauncherPath),
    Save(Instance),
    Failed(LauncherError),
}

/// Installing a mod starts with the download of the version's file (the first
/// primary one, else the first) into the instance's mods folder.
pub open spec fn spec_start_mod_install(
    instance: Instance,
    project_id: Seq<char>,
    version: ProjectVersion,
    display_name: Seq<char>,
    r: ModInstallAction,
) -> bool {
    match spec_download_choice(version.files@) {
        None => r matches ModInstallAction::Failed(e) && e == LauncherError::NoVersionFile,
        Some(k) => {
            &&& r matches ModInstallAction::Download(f, url, dest)
            &&& f.instance == instance
            &&& f.project_id@ == project_id
            &&& f.version == version
            &&& f.display_name@ == display_name
            &&& url@ == version.files@[k].url@
            &&& dest@ == spec_instance_dir(instance.id@).push("mods"@).push(version.files@[k].filename@)
        },
    }
}

/// Once the file is downloaded the mod is recorded (replacing the project's
/// previous mod) and the instance saved; a failed download changes nothing.
pub open spec fn spec_mod_install_step(flow: ModInstall, event: ModInstallEvent, r: ModInstallAction) -> bool {
    match event {
        ModInstallEvent::Downloaded(name) => {
            &&& r matches ModInstallAction::Save(inst)
            &&& same_settings(inst, flow.instance)
            &&& mods_view(inst.mods@) == spec_install_mod(
                mods_view(flow.instance.mods@),
                InstalledModView {
                    project_id: flow.project_id@,
                    version_id: flow.version.id@,
                    filename: name@,
                    name: flow.display_name@,
                },
            )
        },
        ModInstallEvent::DownloadFailed(why) => r matches ModInstallAction::Failed(e) && e == LauncherError::Transfer(why),
    }
}

/// Starts installing the mod of `project_id` at `version` into `instance`.
pub fn start_mod_install(instance: Instance, project_id: &str, version: ProjectVersion, display_name: &str) -> (r: ModInstallAction)
    ensures
        spec_start_mod_install(instance, project_id@, version, display_name@, r),
{
    let (url, dest) = match download_choice(&version) {
        Err(e) => return ModInstallAction::Failed(e),
        Ok(file) => (file.url.clone(), instance.mods_dir().join(file.filename.as_str())),
    };
    let flow = ModInstall {
        instance,
        project_id: project_id.to_owned(),
        version,
        display_name: display_name.to_owned(),
    };
    ModInstallAction::Download(flow, url, dest)
}

/// Advances the installation of a mod with how its download went.
pub fn mod_install_step(flow: ModInstall, event: ModInstallEvent) -> (r: ModInstallAction)
    ensures
        spec_mod_install_step(flow, event, r),
{
    match event {
        ModInstallEvent::Downloaded(name) => {
            let ModInstall { mut instance, project_id, version, display_name } = flow;
            install_mod(&mut instance, project_id.as_str(), &version, name, display_name.as_str());
            ModInstallAction::Save(instance)
        },
        ModInstallEvent::DownloadFailed(why) => ModInstallAction::Failed(LauncherError::Transfer(why)),
    }
}

/// A mod is recorded in the instance only after its file was downloaded: the
/// start never saves, and a failed download ends without saving.
pub proof fn lemma_mod_recorded_after_download(
    instance: Instance,
    project_id: Seq<char>,
    version: ProjectVersion,
    display_name: Seq<char>,
    start: ModInstallAction,
    flow: ModInstall,
    event: ModInstallEvent,
    r: ModInstallAction,
)
    requires
        spec_start_mod_install(instance, project_id, version, display_name, start),
        spec_mod_install_step(flow, event, r),
    ensures
        !(start is Save),
        r is Save <==> event is Downloaded,
{
}

/// Takes out of `instance` the first mod of `project_id` and returns it (the
/// caller deletes its file and saves the instance); `None`, and nothing
/// changed, when no mod of that project is installed.
pub fn remove_mod(instance: &mut Instance, project_id: &str) -> (r: Option<InstalledMod>)
    ensures
        same_settings(*final(instance), *old(instance)),
        mods_view(final(instance).mods@) == spec_remove_mod(mods_view(old(instance).mods@), project_id@),
        ({
            let k = index_of_project(mods_view(old(instance).mods@), project_id@);
            if k >= 0 {
                r is Some && r->Some_0@ == mods_view(old(instance).mods@)[k]
            } else {
                r is None
            }
        }),
{
    let ghost old_mods = mods_view(instance.mods@);
    proof {
        lemma_index_of_project(old_mods, project_id@);
    }
    let mut i: usize = 0;
    while i < instance.mods.len()
        invariant
            i <= instance.mods.len(),
            *instance == *old(instance),
            mods_view(instance.mods@) == old_mods,
            index_of_project(old_mods.take(i as int), project_id@) == -1,
        decreases instance.mods.len() - i,
    {
        assert(old_mods.take(i + 1).drop_last() == old_mods.take(i as int));
        if str_eq(instance.mods[i].project_id.as_str(), project_id) {
            proof {
                lemma_index_of_project(old_mods, project_id@);
                lemma_index_of_project(old_mods.take(i as int), project_id@);
                let k = index_of_project(old_mods, project_id@);
                assert(old_mods[i as int].project_id == project_id@);
                if 0 <= k < i {
                    assert(old_mods.take(i as int)[k] == old_mods[k]);
                    assert(old_mods.take(i as int)[k].project_id != project_id@);
                }
                if k < 0 || k > i {
                    assert(old_mods[i as int].project_id != project_id@);
                }
                assert(k == i);
            }
            let m = instance.mods.remove(i);
            proof {
                assert(mods_view(instance.mods@) =~= old_mods.remove(i as int));
            }
            return Some(m);
        }
        i = i + 1;
    }
    proof {
        assert(old_mods.take(old_mods.len() as int) == old_mods);
    }
    None
}

/// Installing a mod keeps each project at most once in the list, and the new
/// mod is then the only one of its project, in last place.
pub proof fn lemma_install_mod_unique(mods: Seq<InstalledModView>, m: InstalledModView)
    requires
        projects_unique(mods),
    ensures
        projects_unique(spec_install_mod(mods, m)),
        spec_install_mod(mods, m).last() == m,
        forall|j: int| 0 <= j < spec_install_mod(mods, m).len() - 1
            ==> #[trigger] spec_install_mod(mods, m)[j].project_id != m.project_id,
{
    let pred = |x: InstalledModView| x.project_id != m.project_id;
    let kept = mods.filter(pred);
    let out = spec_install_mod(mods, m);
    assert forall|j: int| 0 <= j < out.len() - 1 implies #[trigger] out[j].project_id != m.project_id by {
        assert(out[j] == kept[j]);
        mods.lemma_filter_pred(pred, j);
    }
    lemma_filter_keeps_unique(mods, pred);
    assert forall|a: int, b: int| 0 <= a < b < out.len() implies out[a].project_id != out[b].project_id by {
        if b == out.len() - 1 {
            assert(out[a] == kept[a]);
            mods.lemma_filter_pred(pred, a);
        } else {
            assert(out[a] == kept[a] && out[b] == kept[b]);
        }
    }
}

proof fn lemma_filter_keeps_unique(mods: Seq<InstalledModView>, pred: spec_fn(InstalledModView) -> bool)
    requires
        projects_unique(mods),
    ensures
        projects_unique(mods.filter(pred)),
    decreases mods.len(),
{
    reveal(Seq::filter);
    if mods.len() > 0 {
        let init = mods.drop_last();
        assert(projects_unique(init));
        lemma_filter_keeps_unique(init, pred);
        if pred(mods.last()) {
            let f = init.filter(pred);
            assert(mods.filter(pred) == f.push(mods.last()));
            assert forall|a: int| 0 <= a < f.len() implies f[a].project_id != mods.last().project_id by {
                assert(f.contains(f[a]));
                init.lemma_filter_contains_rev(pred, f[a]);
                let j = choose|j: int| 0 <= j < init.len() && init[j] == f[a];
                assert(mods[j] == init[j]);
            }
        }
    }
}

/// Removing a project right after installing it leaves the mods of the other
/// projects, in their order, and nothing of that project.
pub proof fn lemma_install_then_remove(mods: Seq<InstalledModView>, m: InstalledModView)
    ensures
        spec_remove_mod(spec_install_mod(mods, m), m.project_id)
            == mods.filter(|x: InstalledModView| x.project_id != m.project_id),
{
    let pred = |x: InstalledModView| x.project_id != m.project_id;
    let kept = mods.filter(pred);
    let out = spec_install_mod(mods, m);
    lemma_index_of_project(out, m.project_id);
    assert forall|j: int| 0 <= j < kept.len() implies kept[j].project_id != m.project_id by {
        mods.lemma_filter_pred(pred, j);
    }
    let k = index_of_project(out, m.project_id);
    if k < out.len() - 1 {
        assert(out[k] == kept[k]);
    }
    assert(k == out.len() - 1);
    assert(out.remove(k) =~= kept);
}

/// Installing the same mod twice gives the same list as installing it once.
pub proof fn lemma_install_mod_idempotent(mods: Seq<InstalledModView>, m: InstalledModView)
    ensures
        spec_install_mod(spec_install_mod(mods, m), m) == spec_install_mod(mods, m),
{
    let pred = |x: InstalledModView| x.project_id != m.project_id;
    let kept = mods.filter(pred);
    reveal(Seq::filter);
    assert(kept.push(m).drop_last() == kept);
    crate::lists::lemma_filter_keeps_all(kept, pred);
}

/// The mod loader to install before a launch: Fabric or Quilt, at the
/// instance's loader version.
#[derive(Debug, Clone, PartialEq, Eq)]
pub enum LoaderSetup {
    Fabric(String),
    Quilt(String),
}

/// Fabric and Quilt instances with a loader version install their loader at
/// launch; Forge and NeoForge are installed separately beforehand, and vanilla
/// needs nothing.
pub open spec fn spec_loader_setup(inst: Instance) -> Option<(Loader, Seq<char>)> {
    match inst.loader_version {
        Some(v) => match inst.loader {
            Loader::Fabric => Some((Loader::Fabric, v@)),
            Loader::Quilt => Some((Loader::Quilt, v@)),
            _ => None,
        },
        None => None,
    }
}

pub fn loader_setup(inst: &Instance) -> (r: Option<LoaderSetup>)
    ensures
        match spec_loader_setup(*inst) {
            Some((Loader::Fabric, v)) => r matches Some(LoaderSetup::Fabric(s)) && s@ == v,
            Some((Loader::Quilt, v)) => r matches Some(LoaderSetup::Quilt(s)) && s@ == v,
            _ => r is None,
        },
{
    match &inst.loader_version {
        Some(v) => match inst.loader {
            Loader::Fabric => Some(LoaderSetup::Fabric(v.clone())),
            Loader::Quilt => Some(LoaderSetup::Quilt(v.clone())),
            _ => None,
        },
        None => None,
    }
}

pub open spec fn data_paths(v: Seq<Seq<Seq<char>>>) -> Seq<PathArgView> {
    v.map_values(|p: Seq<Seq<char>>| PathArgView::Data(p))
}

/// How an instance is started: its Java (`java` from the PATH by default), its
/// memory bounds, its folder as game folder, an 854x480 window, and the
/// loader's jars and main class when a loader was installed.
pub open spec fn is_launch_options_of(o: LaunchOptions, inst: Instance, loader: Option<LoaderInstall>) -> bool {
    &&& o.java_path@ == match inst.java_path {
        Some(j) => j@,
        None => "java"@,
    }
    &&& o.memory_min_mb == inst.memory_min_mb
    &&& o.memory_max_mb == inst.memory_max_mb
    &&& o.game_dir@ == PathArgView::Data(spec_instance_dir(inst.id@))
    &&& o.width == 854
    &&& o.height == 480
    &&& match loader {
        Some(l) => {
            &&& path_args_view(o.extra_classpath@) == data_paths(paths_view(l.jar_paths@))
            &&& o.override_main_class.deep_view() == Some(l.main_class@)
        },
        None => {
            &&& o.extra_classpath@.len() == 0
            &&& o.override_main_class is None
        },
    }
}

/// An instance's game runs in the instance's own folder, and the launch command
/// names that folder after `--gameDir`: its mods, saves and config are the ones
/// used.
pub proof fn lemma_instance_game_folder(
    d: VersionDetails,
    a: MinecraftAccount,
    o: LaunchOptions,
    inst: Instance,
    loader: Option<LoaderInstall>,
)
    requires
        is_launch_options_of(o, inst, loader),
    ensures
        spec_launch(d, a, o).working_dir == Some(PathArgView::Data(spec_instance_dir(inst.id@))),
        spec_launch(d, a, o).args[14] == CommandArgView::Text("--gameDir"@),
        spec_launch(d, a, o).args[15] == CommandArgView::DataPath(Seq::empty(), spec_instance_dir(inst.id@)),
{
}

pub fn launch_options(inst: &Instance, loader: Option<LoaderInstall>) -> (r: LaunchOptions)
    ensures
        is_launch_options_of(r, *inst, loader),
{
    let java_path = match &inst.java_path {
        Some(j) => j.clone(),
        None => "java".to_owned(),
    };
    let mut extra_classpath: Vec<PathArg> = Vec::new();
    let override_main_class = match loader {
        Some(l) => {
            let mut i: usize = 0;
            while i < l.jar_paths.len()
                invariant
                    i <= l.jar_paths.len(),
                    path_args_view(extra_classpath@) == data_paths(paths_view(l.jar_paths@)).take(i as int),
                decreases l.jar_paths.len() - i,
            {
                let ghost before = path_args_view(extra_classpath@);
                extra_classpath.push(PathArg::Data(l.jar_paths[i].duplicate()));
                assert(data_paths(paths_view(l.jar_paths@))[i as int] == PathArgView::Data(l.jar_paths@[i as int]@));
                assert(path_args_view(extra_classpath@) =~= before.push(PathArgView::Data(l.jar_paths@[i as int]@)));
                assert(data_paths(paths_view(l.jar_paths@)).take(i + 1) =~= data_paths(paths_view(l.jar_paths@)).take(i as int).push(
                    data_paths(paths_view(l.jar_paths@))[i as int]));
                i = i + 1;
            }
            assert(data_paths(paths_view(l.jar_paths@)).take(l.jar_paths.len() as int) =~= data_paths(paths_view(l.jar_paths@)));
            Some(l.main_class)
        },
        None => None,
    };
    LaunchOptions {
        java_path,
        memory_min_mb: inst.memory_min_mb,
        memory_max_mb: inst.memory_max_mb,
        game_dir: PathArg::Data(inst.dir()),
        width: 854,
        height: 480,
        extra_classpath,
        override_main_class,
    }
}

} // verus!
