//! Launching an instance: which account and version it uses, what it fetches
//! and downloads, and in which order, up to the start of the game. The
//! application performs each action and reports back what came of it.

use vstd::prelude::*;
use crate::auth::{find_account, index_of_account, MinecraftAccount};
use crate::error::LauncherError;
use crate::http::{get_request, spec_get, HttpRequest};
use crate::instance::{is_launch_options_of, launch_options, loader_setup, spec_loader_setup, Instance, Loader, LoaderSetup};
use crate::loaders::{fabric, is_install_of, quilt, spec_profile_url, LoaderInstall, LoaderProfile};
use crate::minecraft::{
    find_version, index_of_version, jobs_view, spec_install_jobs, version_install_plan, version_manifest_request,
    DownloadJob, LaunchOptions, VersionDetails, VersionManifest, VERSION_MANIFEST_URL,
};

verus! {

/// Where a launch stands: what it waits for.
pub enum LaunchStage {
    /// The Mojang version manifest.
    Manifest,
    /// The details of the instance's version.
    Details,
    /// The download `next` of the version's files (`jobs`).
    VersionFiles { details: VersionDetails, jobs: Vec<DownloadJob>, next: usize },
    /// The launch profile of the instance's loader.
    LoaderProfile { details: VersionDetails, setup: LoaderSetup },
    /// The download `next` of the loader's libraries.
    LoaderFiles { details: VersionDetails, install: LoaderInstall, next: usize },
}

/// A launch in progress: the instance and the account it was started with.
pub struct LaunchFlow {
    pub stage: LaunchStage,
    pub instance: Instance,
    pub account: MinecraftAccount,
}

/// What the application reports back: a service's answer (already read with
/// `json_reply`), or how the pending download went.
pub enum LaunchEvent {
    Manifest(Result<VersionManifest, LauncherError>),
    Details(Result<VersionDetails, LauncherError>),
    LoaderProfile(Result<LoaderProfile, LauncherError>),
    Downloaded,
    /// The download failed; the text says why.
    DownloadFailed(String),
}

/// What the launch does next: send a request, download a file, start the game
/// (the process that `minecraft::launch` describes for these values), or stop
/// with an error.
pub enum LaunchAction {
    Fetch(LaunchFlow, HttpRequest),
    Download(LaunchFlow, DownloadJob),
    Start(VersionDetails, MinecraftAccount, LaunchOptions),
    Failed(LauncherError),
}

pub open spec fn fails_with(r: LaunchAction, e: LauncherError) -> bool {
    r matches LaunchAction::Failed(x) && x == e
}

/// After the version's files: fetch the loader's profile when the instance
/// installs Fabric or Quilt at launch, else start the game without a loader.
pub open spec fn goes_past_version_files(r: LaunchAction, inst: Instance, acc: MinecraftAccount, d: VersionDetails) -> bool {
    match spec_loader_setup(inst) {
        Some((Loader::Fabric, v)) => {
            &&& r matches LaunchAction::Fetch(f, req)
            &&& f.instance == inst
            &&& f.account == acc
            &&& f.stage matches LaunchStage::LoaderProfile { details, setup }
            &&& details == d
            &&& setup matches LoaderSetup::Fabric(s) && s@ == v
            &&& req@ == spec_get(spec_profile_url(fabric::META_BASE@, inst.mc_version@, v))
        },
        Some((Loader::Quilt, v)) => {
            &&& r matches LaunchAction::Fetch(f, req)
            &&& f.instance == inst
            &&& f.account == acc
            &&& f.stage matches LaunchStage::LoaderProfile { details, setup }
            &&& details == d
            &&& setup matches LoaderSetup::Quilt(s) && s@ == v
            &&& req@ == spec_get(spec_profile_url(quilt::META_BASE@, inst.mc_version@, v))
        },
        _ => {
            &&& r matches LaunchAction::Start(d2, a2, o)
            &&& d2 == d
            &&& a2 == acc
            &&& is_launch_options_of(o, inst, None)
        },
    }
}

/// The launch goes on with the version's download `i`, or past the last one.
pub open spec fn continues_version_files(
    r: LaunchAction,
    inst: Instance,
    acc: MinecraftAccount,
    d: VersionDetails,
    jobs: Seq<DownloadJob>,
    i: int,
) -> bool {
    if 0 <= i < jobs.len() {
        &&& r matches LaunchAction::Download(f, job)
        &&& f.instance == inst
        &&& f.account == acc
        &&& f.stage matches LaunchStage::VersionFiles { details, jobs: js, next }
        &&& details == d
        &&& js@ == jobs
        &&& next == i
        &&& job@ == jobs[i]@
    } else {
        goes_past_version_files(r, inst, acc, d)
    }
}

/// The launch goes on with the loader's download `i`, or starts the game with
/// the loader once past the last one.
pub open spec fn continues_loader_files(
    r: LaunchAction,
    inst: Instance,
    acc: MinecraftAccount,
    d: VersionDetails,
    install: LoaderInstall,
    i: int,
) -> bool {
    if 0 <= i < install.downloads@.len() {
        &&& r matches LaunchAction::Download(f, job)
        &&& f.instance == inst
        &&& f.account == acc
        &&& f.stage matches LaunchStage::LoaderFiles { details, install: held, next }
        &&& details == d
        &&& held == install
        &&& next == i
        &&& job@ == install.downloads@[i]@
    } else {
        &&& r matches LaunchAction::Start(d2, a2, o)
        &&& d2 == d
        &&& a2 == acc
        &&& is_launch_options_of(o, inst, Some(install))
    }
}

/// The loader installed from `profile` (with the loader's defaults), then its
/// first download.
pub open spec fn begins_loader_files(
    r: LaunchAction,
    inst: Instance,
    acc: MinecraftAccount,
    d: VersionDetails,
    profile: LoaderProfile,
    main_class: Seq<char>,
    repo: Seq<char>,
) -> bool {
    exists|install: LoaderInstall|
        #[trigger] is_install_of(install, profile, main_class, repo)
        && continues_loader_files(r, inst, acc, d, install, 0)
}

/// A launch first looks up the account among the saved ones (and stops when
/// there is none), then asks for the version manifest.
pub open spec fn spec_start_launch(inst: Instance, accounts: Seq<MinecraftAccount>, uuid: Seq<char>, r: LaunchAction) -> bool {
    let k = index_of_account(accounts, uuid);
    if k < 0 {
        fails_with(r, LauncherError::AccountNotFound)
    } else {
        &&& r matches LaunchAction::Fetch(f, req)
        &&& f.stage is Manifest
        &&& f.instance == inst
        &&& f.account@ == accounts[k]@
        &&& req@ == spec_get(VERSION_MANIFEST_URL@)
    }
}

/// One step of a launch: the instance's version is looked up in the manifest
/// and its details fetched; the version's files are downloaded one after the
/// other, and the first failure stops the launch; then the loader's profile is
/// fetched and its libraries downloaded, a failed one being skipped; then the
/// game starts. An error answer stops the launch; an answer that does not fit
/// the stage too.
pub open spec fn spec_launch_step(flow: LaunchFlow, event: LaunchEvent, r: LaunchAction) -> bool {
    let inst = flow.instance;
    let acc = flow.account;
    match flow.stage {
        LaunchStage::Manifest => match event {
            LaunchEvent::Manifest(Err(e)) => fails_with(r, e),
            LaunchEvent::Manifest(Ok(m)) => {
                let k = index_of_version(m.versions@, inst.mc_version@);
                if k < 0 {
                    fails_with(r, LauncherError::VersionNotFound)
                } else {
                    &&& r matches LaunchAction::Fetch(f, req)
                    &&& f.stage is Details
                    &&& f.instance == inst
                    &&& f.account == acc
                    &&& req@ == spec_get(m.versions@[k].url@)
                }
            },
            _ => fails_with(r, LauncherError::UnexpectedReply),
        },
        LaunchStage::Details => match event {
            LaunchEvent::Details(Err(e)) => fails_with(r, e),
            LaunchEvent::Details(Ok(d)) => {
                &&& r matches LaunchAction::Download(f, job)
                &&& f.instance == inst
                &&& f.account == acc
                &&& f.stage matches LaunchStage::VersionFiles { details, jobs, next }
                &&& details == d
                &&& next == 0
                &&& jobs_view(jobs@) == spec_install_jobs(d)
                &&& jobs@.len() > 0
                &&& job@ == jobs@[0]@
            },
            _ => fails_with(r, LauncherError::UnexpectedReply),
        },
        LaunchStage::VersionFiles { details, jobs, next } => match event {
            LaunchEvent::Downloaded => continues_version_files(r, inst, acc, details, jobs@, next + 1),
            LaunchEvent::DownloadFailed(why) => fails_with(r, LauncherError::Transfer(why)),
            _ => fails_with(r, LauncherError::UnexpectedReply),
        },
        LaunchStage::LoaderProfile { details, setup } => match event {
            LaunchEvent::LoaderProfile(Err(e)) => fails_with(r, e),
            LaunchEvent::LoaderProfile(Ok(p)) => match setup {
                LoaderSetup::Fabric(_) => begins_loader_files(
                    r, inst, acc, details, p, fabric::DEFAULT_MAIN_CLASS@, fabric::DEFAULT_REPOSITORY@,
                ),
                LoaderSetup::Quilt(_) => begins_loader_files(
                    r, inst, acc, details, p, quilt::DEFAULT_MAIN_CLASS@, quilt::DEFAULT_REPOSITORY@,
                ),
            },
            _ => fails_with(r, LauncherError::UnexpectedReply),
        },
        LaunchStage::LoaderFiles { details, install, next } => match event {
            LaunchEvent::Downloaded => continues_loader_files(r, inst, acc, details, install, next + 1),
            LaunchEvent::DownloadFailed(_) => continues_loader_files(r, inst, acc, details, install, next + 1),
            _ => fails_with(r, LauncherError::UnexpectedReply),
        },
    }
}

fn copy_opt(o: &Option<String>) -> (r: Option<String>)
    ensures
        r.deep_view() == o.deep_view(),
{
    match o {
        Some(s) => Some(s.clone()),
        None => None,
    }
}

fn copy_job(job: &DownloadJob) -> (r: DownloadJob)
    ensures
        r@ == job@,
{
    DownloadJob { url: job.url.clone(), dest: job.dest.duplicate(), sha1: copy_opt(&job.sha1) }
}

/// Starts launching `instance` with the saved account whose UUID is `uuid`.
pub fn start_launch(instance: Instance, accounts: &Vec<MinecraftAccount>, uuid: &str) -> (r: LaunchAction)
    ensures
        spec_start_launch(instance, accounts@, uuid@, r),
{
    match find_account(accounts, uuid) {
        Err(e) => LaunchAction::Failed(e),
        Ok(account) => {
            let account = account.duplicate();
            let req = version_manifest_request();
            LaunchAction::Fetch(LaunchFlow { stage: LaunchStage::Manifest, instance, account }, req)
        },
    }
}

fn past_version_files(instance: Instance, account: MinecraftAccount, details: VersionDetails) -> (r: LaunchAction)
    ensures
        goes_past_version_files(r, instance, account, details),
{
    match loader_setup(&instance) {
        Some(LoaderSetup::Fabric(v)) => {
            let req = fabric::profile(instance.mc_version.as_str(), v.as_str());
            let stage = LaunchStage::LoaderProfile { details, setup: LoaderSetup::Fabric(v) };
            LaunchAction::Fetch(LaunchFlow { stage, instance, account }, req)
        },
        Some(LoaderSetup::Quilt(v)) => {
            let req = quilt::profile(instance.mc_version.as_str(), v.as_str());
            let stage = LaunchStage::LoaderProfile { details, setup: LoaderSetup::Quilt(v) };
            LaunchAction::Fetch(LaunchFlow { stage, instance, account }, req)
        },
        None => {
            let opts = launch_options(&instance, None);
            LaunchAction::Start(details, account, opts)
        },
    }
}

fn version_file(
    instance: Instance,
    account: MinecraftAccount,
    details: VersionDetails,
    jobs: Vec<DownloadJob>,
    i: usize,
) -> (r: LaunchAction)
    ensures
        continues_version_files(r, instance, account, details, jobs@, i as int),
{
    if i < jobs.len() {
        let job = copy_job(&jobs[i]);
        let stage = LaunchStage::VersionFiles { details, jobs, next: i };
        LaunchAction::Download(LaunchFlow { stage, instance, account }, job)
    } else {
        past_version_files(instance, account, details)
    }
}

fn loader_file(
    instance: Instance,
    account: MinecraftAccount,
    details: VersionDetails,
    install: LoaderInstall,
    i: usize,
) -> (r: LaunchAction)
    ensures
        continues_loader_files(r, instance, account, details, install, i as int),
{
    if i < install.downloads.len() {
        let job = copy_job(&install.downloads[i]);
        let stage = LaunchStage::LoaderFiles { details, install, next: i };
        LaunchAction::Download(LaunchFlow { stage, instance, account }, job)
    } else {
        let opts = launch_options(&instance, Some(install));
        LaunchAction::Start(details, account, opts)
    }
}

/// Advances a launch with what the application reports.
pub fn launch_step(flow: LaunchFlow, event: LaunchEvent) -> (r: LaunchAction)
    ensures
        spec_launch_step(flow, event, r),
{
    let LaunchFlow { stage, instance, account } = flow;
    match stage {
        LaunchStage::Manifest => match event {
            LaunchEvent::Manifest(Err(e)) => LaunchAction::Failed(e),
            LaunchEvent::Manifest(Ok(manifest)) => match find_version(&manifest, instance.mc_version.as_str()) {
                None => LaunchAction::Failed(LauncherError::VersionNotFound),
                Some(entry) => {
                    let req = get_request(entry.url.clone());
                    LaunchAction::Fetch(LaunchFlow { stage: LaunchStage::Details, instance, account }, req)
                },
            },
            _ => LaunchAction::Failed(LauncherError::UnexpectedReply),
        },
        LaunchStage::Details => match event {
            LaunchEvent::Details(Err(e)) => LaunchAction::Failed(e),
            LaunchEvent::Details(Ok(details)) => {
                let (jobs, _client_jar) = version_install_plan(&details);
                assert(jobs_view(jobs@).len() == jobs@.len());
                assert(jobs@.len() > 0);
                version_file(instance, account, details, jobs, 0)
            },
            _ => LaunchAction::Failed(LauncherError::UnexpectedReply),
        },
        LaunchStage::VersionFiles { details, jobs, next } => match event {
            LaunchEvent::Downloaded => {
                let i = if next < jobs.len() { next + 1 } else { jobs.len() };
                version_file(instance, account, details, jobs, i)
            },
            LaunchEvent::DownloadFailed(why) => LaunchAction::Failed(LauncherError::Transfer(why)),
            _ => LaunchAction::Failed(LauncherError::UnexpectedReply),
        },
        LaunchStage::LoaderProfile { details, setup } => match event {
            LaunchEvent::LoaderProfile(Err(e)) => LaunchAction::Failed(e),
            LaunchEvent::LoaderProfile(Ok(profile)) => {
                let install = match setup {
                    LoaderSetup::Fabric(_) => fabric::install(&profile),
                    LoaderSetup::Quilt(_) => quilt::install(&profile),
                };
                loader_file(instance, account, details, install, 0)
            },
            _ => LaunchAction::Failed(LauncherError::UnexpectedReply),
        },
        LaunchStage::LoaderFiles { details, install, next } => match event {
            LaunchEvent::Downloaded | LaunchEvent::DownloadFailed(_) => {
                let i = if next < install.downloads.len() { next + 1 } else { install.downloads.len() };
                loader_file(instance, account, details, install, i)
            },
            _ => LaunchAction::Failed(LauncherError::UnexpectedReply),
        },
    }
}

/// The files a launch downloads are the version's install plan, in its order:
/// the first one once the details are known, then each next one after the
/// previous succeeded; the loader's libraries likewise, in the order of its
/// install, going on past a failed one.
pub proof fn lemma_launch_downloads(flow: LaunchFlow, event: LaunchEvent, r: LaunchAction)
    requires
        spec_launch_step(flow, event, r),
    ensures
        match (flow.stage, event) {
            (LaunchStage::Details, LaunchEvent::Details(Ok(d))) =>
                r matches LaunchAction::Download(_, job) && job@ == spec_install_jobs(d)[0],
            (LaunchStage::VersionFiles { jobs, next, .. }, LaunchEvent::Downloaded) =>
                0 <= next + 1 < jobs@.len() ==> (r matches LaunchAction::Download(_, job) && job@ == jobs@[next + 1]@),
            (LaunchStage::LoaderFiles { install, next, .. }, LaunchEvent::Downloaded) =>
                0 <= next + 1 < install.downloads@.len()
                    ==> (r matches LaunchAction::Download(_, job) && job@ == install.downloads@[next + 1]@),
            (LaunchStage::LoaderFiles { install, next, .. }, LaunchEvent::DownloadFailed(_)) =>
                0 <= next + 1 < install.downloads@.len()
                    ==> (r matches LaunchAction::Download(_, job) && job@ == install.downloads@[next + 1]@),
            _ => true,
        },
{
    if let (LaunchStage::Details, LaunchEvent::Details(Ok(d))) = (flow.stage, event) {
        if let LaunchAction::Download(f, job) = r {
            if let LaunchStage::VersionFiles { details, jobs, next } = f.stage {
                assert(jobs_view(jobs@)[0] == jobs@[0]@);
            }
        }
    }
}

/// The order of a launch. Before the account is found nothing is sent; before
/// the version is found in the manifest nothing is downloaded or started; the
/// version's files are downloaded one after the other, each step moving to the
/// next file, and a failed one stops the launch; the game starts only after
/// the last download; every step keeps the instance and the account.
pub proof fn lemma_launch_order(
    inst: Instance,
    accounts: Seq<MinecraftAccount>,
    uuid: Seq<char>,
    start: LaunchAction,
    flow: LaunchFlow,
    event: LaunchEvent,
    r: LaunchAction,
)
    requires
        spec_start_launch(inst, accounts, uuid, start),
        spec_launch_step(flow, event, r),
    ensures
        index_of_account(accounts, uuid) < 0 ==> start is Failed,
        start is Fetch || start is Failed,
        flow.stage is Manifest ==> !(r is Download) && !(r is Start),
        flow.stage is Details ==> !(r is Start),
        flow.stage is VersionFiles && event is DownloadFailed ==> r is Failed,
        match flow.stage {
            LaunchStage::VersionFiles { jobs, next, .. } => event is Downloaded ==> {
                ||| (r matches LaunchAction::Download(f, _) && match f.stage {
                    LaunchStage::VersionFiles { next: n, .. } => n == next + 1,
                    _ => false,
                })
                ||| (next + 1 >= jobs@.len() && !(r is Failed))
            },
            _ => true,
        },
        r is Start ==> !(flow.stage is Manifest) && !(flow.stage is Details),
        r matches LaunchAction::Fetch(f, _) ==> f.instance == flow.instance && f.account == flow.account,
        r matches LaunchAction::Download(f, _) ==> f.instance == flow.instance && f.account == flow.account,
        r matches LaunchAction::Start(_, a, _) ==> a == flow.account,
{
}

} // verus!
