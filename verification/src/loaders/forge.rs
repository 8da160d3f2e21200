//! Forge and NeoForge have no meta API returning a ready-made profile. The
//! official way is to download the installer and run it headless
//! (`java -jar <installer>.jar --installClient <minecraft root>`); it writes a
//! version profile under `versions/` and downloads its own libraries into
//! `libraries/`, after which the version launches like a vanilla one. NeoForge's
//! installer is a fork of Forge's and works the same way. The installer's
//! behaviour has changed over the years of Minecraft releases.

use vstd::prelude::*;
use crate::error::LauncherError;
use crate::process::{command_args_view, text_arg, CommandArg, CommandArgView, ProcessSpec, ProcessSpecView};
use crate::text::cat;

verus! {

pub enum LoaderKind {
    Forge,
    NeoForge,
}

/// Where the installer of a loader version is published.
pub open spec fn spec_installer_url(kind: LoaderKind, mc_version: Seq<char>, loader_version: Seq<char>) -> Seq<char> {
    match kind {
        LoaderKind::Forge => "https://maven.minecraftforge.net/net/minecraftforge/forge/"@ + mc_version + "-"@
            + loader_version + "/forge-"@ + mc_version + "-"@ + loader_version + "-installer.jar"@,
        LoaderKind::NeoForge => "https://maven.neoforged.net/releases/net/neoforged/neoforge/"@ + loader_version
            + "/neoforge-"@ + loader_version + "-installer.jar"@,
    }
}

pub fn installer_url(kind: &LoaderKind, mc_version: &str, loader_version: &str) -> (r: String)
    ensures
        r@ == spec_installer_url(*kind, mc_version@, loader_version@),
{
    match kind {
        LoaderKind::Forge => {
            let mut r = cat("https://maven.minecraftforge.net/net/minecraftforge/forge/", mc_version);
            r.append("-");
            r.append(loader_version);
            r.append("/forge-");
            r.append(mc_version);
            r.append("-");
            r.append(loader_version);
            r.append("-installer.jar");
            r
        },
        LoaderKind::NeoForge => {
            let mut r = cat("https://maven.neoforged.net/releases/net/neoforged/neoforge/", loader_version);
            r.append("/neoforge-");
            r.append(loader_version);
            r.append("-installer.jar");
            r
        },
    }
}

/// Name of the file the installer is downloaded to, in the temporary folder.
pub fn installer_file_name(loader_version: &str) -> (r: String)
    ensures
        r@ == "forge-installer-"@ + loader_version@ + ".jar"@,
{
    let mut r = cat("forge-installer-", loader_version);
    r.append(".jar");
    r
}

/// The installer run: `java -jar <installer> --installClient <mc_root>`.
pub open spec fn spec_installer_command(java_path: Seq<char>, installer: Seq<char>, mc_root: Seq<char>) -> ProcessSpecView {
    ProcessSpecView {
        program: java_path,
        working_dir: None,
        args: seq![
            CommandArgView::Text("-jar"@),
            CommandArgView::Text(installer),
            CommandArgView::Text("--installClient"@),
            CommandArgView::Text(mc_root),
        ],
        piped_stdio: false,
    }
}

pub fn installer_command(java_path: &str, installer: &str, mc_root: &str) -> (r: ProcessSpec)
    ensures
        r@ == spec_installer_command(java_path@, installer@, mc_root@),
{
    let mut args: Vec<CommandArg> = Vec::new();
    args.push(text_arg("-jar"));
    args.push(text_arg(installer));
    args.push(text_arg("--installClient"));
    args.push(text_arg(mc_root));
    let r = ProcessSpec { program: java_path.to_owned(), working_dir: None, args, piped_stdio: false };
    assert(command_args_view(r.args@) =~= spec_installer_command(java_path@, installer@, mc_root@).args);
    r
}

/// An installation of Forge or NeoForge in progress: the installer is
/// downloaded to `installer` (a file in the temporary folder), then run with
/// `java_path` on the Minecraft folder `mc_root`.
pub struct ForgeInstall {
    pub running: bool,
    pub java_path: String,
    pub installer: String,
    pub mc_root: String,
}

/// What the application reports back: how the installer's download went, or
/// how the installer exited (success, and its exit code when it has one).
pub enum ForgeEvent {
    Downloaded,
    DownloadFailed(String),
    Exited(bool, Option<i32>),
}

/// What the installation does next: download the installer from the URL to the
/// file, run the installer, or stop with the outcome.
pub enum ForgeAction {
    Download(ForgeInstall, String, String),
    Run(ForgeInstall, ProcessSpec),
    Done(Result<(), LauncherError>),
}

/// Installing a loader starts with the download of its installer.
pub open spec fn spec_start_forge_install(
    kind: LoaderKind,
    mc_version: Seq<char>,
    loader_version: Seq<char>,
    java_path: Seq<char>,
    installer: Seq<char>,
    mc_root: Seq<char>,
    r: ForgeAction,
) -> bool {
    &&& r matches ForgeAction::Download(f, url, dest)
    &&& !f.running
    &&& f.java_path@ == java_path
    &&& f.installer@ == installer
    &&& f.mc_root@ == mc_root
    &&& url@ == spec_installer_url(kind, mc_version, loader_version)
    &&& dest@ == installer
}

/// One step: the installer runs only once it was downloaded, a failed download
/// stops the installation, and the installer's exit decides the outcome.
pub open spec fn spec_forge_step(flow: ForgeInstall, event: ForgeEvent, r: ForgeAction) -> bool {
    match event {
        ForgeEvent::Downloaded => if flow.running {
            r == ForgeAction::Done(Err(LauncherError::UnexpectedReply))
        } else {
            &&& r matches ForgeAction::Run(f, cmd)
            &&& f.running
            &&& f.java_path == flow.java_path
            &&& f.installer == flow.installer
            &&& f.mc_root == flow.mc_root
            &&& cmd@ == spec_installer_command(flow.java_path@, flow.installer@, flow.mc_root@)
        },
        ForgeEvent::DownloadFailed(why) => if flow.running {
            r == ForgeAction::Done(Err(LauncherError::UnexpectedReply))
        } else {
            r == ForgeAction::Done(Err(LauncherError::Transfer(why)))
        },
        ForgeEvent::Exited(success, code) => if flow.running {
            r == ForgeAction::Done(if success { Ok(()) } else { Err(LauncherError::InstallerFailed(code)) })
        } else {
            r == ForgeAction::Done(Err(LauncherError::UnexpectedReply))
        },
    }
}

/// Starts installing a loader version: first its installer is downloaded to
/// `installer`.
pub fn start_forge_install(
    kind: &LoaderKind,
    mc_version: &str,
    loader_version: &str,
    java_path: &str,
    installer: &str,
    mc_root: &str,
) -> (r: ForgeAction)
    ensures
        spec_start_forge_install(*kind, mc_version@, loader_version@, java_path@, installer@, mc_root@, r),
{
    let url = installer_url(kind, mc_version, loader_version);
    let flow = ForgeInstall {
        running: false,
        java_path: java_path.to_owned(),
        installer: installer.to_owned(),
        mc_root: mc_root.to_owned(),
    };
    ForgeAction::Download(flow, url, installer.to_owned())
}

/// Advances an installation with what the application reports.
pub fn forge_step(flow: ForgeInstall, event: ForgeEvent) -> (r: ForgeAction)
    ensures
        spec_forge_step(flow, event, r),
{
    match event {
        ForgeEvent::Downloaded => {
            if flow.running {
                ForgeAction::Done(Err(LauncherError::UnexpectedReply))
            } else {
                let cmd = installer_command(flow.java_path.as_str(), flow.installer.as_str(), flow.mc_root.as_str());
                let ForgeInstall { running: _, java_path, installer, mc_root } = flow;
                ForgeAction::Run(ForgeInstall { running: true, java_path, installer, mc_root }, cmd)
            }
        },
        ForgeEvent::DownloadFailed(why) => {
            if flow.running {
                ForgeAction::Done(Err(LauncherError::UnexpectedReply))
            } else {
                ForgeAction::Done(Err(LauncherError::Transfer(why)))
            }
        },
        ForgeEvent::Exited(success, code) => {
            if flow.running {
                ForgeAction::Done(installer_outcome(success, code))
            } else {
                ForgeAction::Done(Err(LauncherError::UnexpectedReply))
            }
        },
    }
}

/// The installer never runs before its download succeeded, and a failed
/// download ends the installation without running it.
pub proof fn lemma_forge_order(flow: ForgeInstall, event: ForgeEvent, r: ForgeAction)
    requires
        spec_forge_step(flow, event, r),
    ensures
        r is Run ==> !flow.running && event is Downloaded,
        event is DownloadFailed ==> r is Done,
{
}

/// The outcome of the installer run: a failure carries its exit code.
pub fn installer_outcome(success: bool, code: Option<i32>) -> (r: Result<(), LauncherError>)
    ensures
        success ==> r == Ok::<(), LauncherError>(()),
        !success ==> r == Err::<(), LauncherError>(LauncherError::InstallerFailed(code)),
{
    if success {
        Ok(())
    } else {
        Err(LauncherError::InstallerFailed(code))
    }
}

} // verus!
