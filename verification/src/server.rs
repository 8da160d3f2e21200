//! Minecraft servers hosted on the user's own machine: `java -jar server.jar
//! nogui` in a dedicated folder, on a port the user forwards on their router
//! if friends join from outside (the launcher does no NAT traversal).

use vstd::prelude::*;
use crate::error::LauncherError;
use crate::http::{get_request, spec_get, HttpRequest, HttpRequestView};
use crate::identity::{is_uuid_v4_text, new_uuid_v4, now_utc, Dated, Timestamp};
use crate::minecraft::{
    find_version, index_of_version, lemma_index_of_version, version_manifest_request, DownloadJob, DownloadJobView,
    VersionDetails, VersionManifest, VERSION_MANIFEST_URL,
};
use crate::paths::{server_dir, spec_server_dir, LauncherPath};
use crate::process::{
    command_args_view, text_arg, CommandArg, CommandArgView, PathArg, PathArgView, ProcessSpec,
    ProcessSpecView,
};
use crate::text::{cat, decimal, decimal_u64, str_eq};

verus! {

#[derive(Debug, Clone, Copy, PartialEq, Eq, Structural)]
pub enum ServerSoftware {
    Vanilla,
    Paper,
}

#[derive(Debug, Clone, PartialEq, Eq)]
pub struct LocalServer {
    pub id: String,
    pub name: String,
    pub mc_version: String,
    pub software: ServerSoftware,
    pub port: u16,
    pub memory_min_mb: u32,
    pub memory_max_mb: u32,
    pub java_path: String,
    pub eula_accepted: bool,
    pub created_at: Timestamp,
}

impl Dated for LocalServer {
    open spec fn created(&self) -> Timestamp {
        self.created_at
    }

    fn created_at(&self) -> (t: Timestamp) {
        self.created_at
    }
}

/// The server software named by the user interface: "paper", anything else
/// meaning vanilla.
pub fn software_named(name: &str) -> (r: ServerSoftware)
    ensures
        r == if name@ == "paper"@ { ServerSoftware::Paper } else { ServerSoftware::Vanilla },
{
    if str_eq(name, "paper") {
        ServerSoftware::Paper
    } else {
        ServerSoftware::Vanilla
    }
}

pub open spec fn is_fresh_server(r: LocalServer, name: Seq<char>, mc_version: Seq<char>, software: ServerSoftware) -> bool {
    &&& r.name@ == name
    &&& r.mc_version@ == mc_version
    &&& r.software == software
    &&& r.port == 25565
    &&& r.memory_min_mb == 1024
    &&& r.memory_max_mb == 4096
    &&& r.java_path@ == "java"@
    &&& !r.eula_accepted
}

pub open spec fn spec_server_properties(port: u16, name: Seq<char>) -> Seq<char> {
    "server-port="@ + decimal(port as nat) + "\nonline-mode=true\nmotd=Serveur "@ + name
        + " (via DuckyLauncher)\n"@
}

/// Contents of `eula.txt` once the user has accepted the Minecraft EULA.
pub const EULA_ACCEPTED: &'static str = "eula=true\n";

impl LocalServer {
    /// A new server with the given identity: port 25565, 1024 to 4096 MB of
    /// memory, `java` from the PATH, EULA not accepted.
    pub fn with_identity(id: String, created_at: Timestamp, name: &str, mc_version: &str, software: ServerSoftware) -> (r: LocalServer)
        ensures
            r.id@ == id@,
            r.created_at == created_at,
            is_fresh_server(r, name@, mc_version@, software),
    {
        LocalServer {
            id,
            name: name.to_owned(),
            mc_version: mc_version.to_owned(),
            software,
            port: 25565,
            memory_min_mb: 1024,
            memory_max_mb: 4096,
            java_path: "java".to_owned(),
            eula_accepted: false,
            created_at,
        }
    }

    /// A new server with a random UUID as its id, created now.
    pub fn new(name: &str, mc_version: &str, software: ServerSoftware) -> (r: LocalServer)
        ensures
            is_uuid_v4_text(r.id@),
            is_fresh_server(r, name@, mc_version@, software),
            r.created_at.nanos < 1_000_000_000,
    {
        let id = new_uuid_v4();
        let created_at = now_utc();
        LocalServer::with_identity(id, created_at, name, mc_version, software)
    }

    pub fn dir(&self) -> (r: LauncherPath)
        ensures
            r@ == spec_server_dir(self.id@),
    {
        server_dir(self.id.as_str())
    }

    pub fn jar_path(&self) -> (r: LauncherPath)
        ensures
            r@ == spec_server_dir(self.id@).push("server.jar"@),
    {
        self.dir().join("server.jar")
    }

    /// The file the server is saved in.
    pub fn manifest_path(&self) -> (r: LauncherPath)
        ensures
            r@ == spec_server_dir(self.id@).push("server.json"@),
    {
        self.dir().join("server.json")
    }

    /// The minimal `server.properties`: the chosen port, online mode, and a
    /// message of the day naming the server.
    pub fn properties(&self) -> (r: String)
        ensures
            r@ == spec_server_properties(self.port, self.name@),
    {
        let port = decimal_u64(self.port as u64);
        let mut r = cat("server-port=", port.as_str());
        r.append("\nonline-mode=true\nmotd=Serveur ");
        r.append(self.name.as_str());
        r.append(" (via DuckyLauncher)\n");
        r
    }
}

pub const PAPER_API: &'static str = "https://api.papermc.io/v2/projects/paper/versions/";

pub open spec fn spec_paper_builds_url(mc_version: Seq<char>) -> Seq<char> {
    PAPER_API@ + mc_version + "/builds"@
}

pub open spec fn spec_paper_build_url(mc_version: Seq<char>, build: u32) -> Seq<char> {
    spec_paper_builds_url(mc_version) + "/"@ + decimal(build as nat)
}

pub open spec fn spec_paper_jar_url(mc_version: Seq<char>, build: u32, file_name: Seq<char>) -> Seq<char> {
    spec_paper_build_url(mc_version, build) + "/downloads/"@ + file_name
}

/// The builds Paper published for a game version.
pub fn paper_builds_url(mc_version: &str) -> (r: String)
    ensures
        r@ == spec_paper_builds_url(mc_version@),
{
    let mut r = cat(PAPER_API, mc_version);
    r.append("/builds");
    r
}

/// The description of one Paper build.
pub fn paper_build_url(mc_version: &str, build: u32) -> (r: String)
    ensures
        r@ == spec_paper_build_url(mc_version@, build),
{
    let mut r = paper_builds_url(mc_version);
    r.append("/");
    r.append(decimal_u64(build as u64).as_str());
    r
}

/// The server jar of one Paper build.
pub fn paper_jar_url(mc_version: &str, build: u32, file_name: &str) -> (r: String)
    ensures
        r@ == spec_paper_jar_url(mc_version@, build, file_name@),
{
    let mut r = paper_build_url(mc_version, build);
    r.append("/downloads/");
    r.append(file_name);
    r
}

/// The most recent Paper build: the last one listed.
pub fn latest_paper_build(builds: &Vec<u32>) -> (r: Result<u32, LauncherError>)
    ensures
        builds@.len() > 0 ==> r == Ok::<u32, LauncherError>(builds@.last()),
        builds@.len() == 0 ==> r == Err::<u32, LauncherError>(LauncherError::NoPaperBuild),
{
    if builds.len() > 0 {
        Ok(builds[builds.len() - 1])
    } else {
        Err(LauncherError::NoPaperBuild)
    }
}

/// The command that starts the server headless in its folder, with its
/// standard streams piped to the launcher (logs on stdout, commands on
/// stdin); an error when the jar is not installed.
pub open spec fn spec_start(server: LocalServer) -> ProcessSpecView {
    ProcessSpecView {
        program: server.java_path@,
        working_dir: Some(PathArgView::Data(spec_server_dir(server.id@))),
        args: seq![
            CommandArgView::Text("-Xms"@ + decimal(server.memory_min_mb as nat) + "M"@),
            CommandArgView::Text("-Xmx"@ + decimal(server.memory_max_mb as nat) + "M"@),
            CommandArgView::Text("-jar"@),
            CommandArgView::Text("server.jar"@),
            CommandArgView::Text("nogui"@),
        ],
        piped_stdio: true,
    }
}

fn memory_arg(prefix: &str, mb: u32) -> (r: CommandArg)
    ensures
        r@ == CommandArgView::Text(prefix@ + decimal(mb as nat) + "M"@),
{
    let d = decimal_u64(mb as u64);
    let head = cat(prefix, d.as_str());
    CommandArg::Text(cat(head.as_str(), "M"))
}

/// Starts `server` when its jar is installed (`jar_exists`).
pub fn start(server: &LocalServer, jar_exists: bool) -> (r: Result<ProcessSpec, LauncherError>)
    ensures
        jar_exists ==> r is Ok && r->Ok_0@ == spec_start(*server),
        !jar_exists ==> r == Err::<ProcessSpec, LauncherError>(LauncherError::ServerJarMissing),
{
    if !jar_exists {
        return Err(LauncherError::ServerJarMissing);
    }
    let mut args: Vec<CommandArg> = Vec::new();
    args.push(memory_arg("-Xms", server.memory_min_mb));
    args.push(memory_arg("-Xmx", server.memory_max_mb));
    args.push(text_arg("-jar"));
    args.push(text_arg("server.jar"));
    args.push(text_arg("nogui"));
    let r = ProcessSpec {
        program: server.java_path.clone(),
        working_dir: Some(PathArg::Data(server.dir())),
        args,
        piped_stdio: true,
    };
    assert(command_args_view(r.args@) =~= spec_start(*server).args);
    Ok(r)
}

/// Where the installation of a server stands: what it waits for.
#[derive(Debug, Clone, Copy, PartialEq, Eq, Structural)]
pub enum ProvisionStage {
    /// The Mojang version manifest.
    VanillaManifest,
    /// The details of the server's version.
    VanillaDetails,
    /// The list of Paper builds.
    PaperBuilds,
    /// The description of the chosen Paper build.
    PaperBuildInfo { build: u32 },
    /// The download of the jar.
    Downloading,
    /// The writing of `eula.txt`.
    WritingEula,
    /// The writing of `server.properties`.
    WritingProperties,
}

/// An installation in progress.
#[derive(Debug, Clone, PartialEq, Eq)]
pub struct ProvisionFlow {
    pub stage: ProvisionStage,
    pub server: LocalServer,
}

/// What the application reports back: a service's answer (already read with
/// `json_reply`), or the completion of a download or a write.
pub enum ProvisionEvent {
    Manifest(Result<VersionManifest, LauncherError>),
    Details(Result<VersionDetails, LauncherError>),
    PaperBuilds(Result<Vec<u32>, LauncherError>),
    /// The file name of the build's server jar (`downloads.application.name`).
    PaperBuildInfo(Result<String, LauncherError>),
    Downloaded,
    Written,
}

/// What the installation does next.
pub enum ProvisionAction {
    Fetch(ProvisionFlow, HttpRequest),
    Download(ProvisionFlow, DownloadJob),
    /// Write the text to the file; when the flag is set, only if the file does not exist yet.
    Write(ProvisionFlow, LauncherPath, String, bool),
    Done(Result<(), LauncherError>),
}

pub enum ProvisionActionView {
    Fetch(ProvisionFlow, HttpRequestView),
    Download(ProvisionFlow, DownloadJobView),
    Write(ProvisionFlow, Seq<Seq<char>>, Seq<char>, bool),
    Done(Result<(), LauncherError>),
}

impl View for ProvisionAction {
    type V = ProvisionActionView;

    open spec fn view(&self) -> ProvisionActionView {
        match self {
            ProvisionAction::Fetch(f, r) => ProvisionActionView::Fetch(*f, r@),
            ProvisionAction::Download(f, j) => ProvisionActionView::Download(*f, j@),
            ProvisionAction::Write(f, p, t, only_new) => ProvisionActionView::Write(*f, p@, t@, *only_new),
            ProvisionAction::Done(r) => ProvisionActionView::Done(*r),
        }
    }
}

pub open spec fn with_stage(server: LocalServer, stage: ProvisionStage) -> ProvisionFlow {
    ProvisionFlow { stage, server }
}

pub open spec fn jar_of(server: LocalServer) -> Seq<Seq<char>> {
    spec_server_dir(server.id@).push("server.jar"@)
}

/// Installing a server starts by refusing it when the EULA is not accepted,
/// and otherwise asks for the version manifest (vanilla) or the list of
/// Paper builds.
pub open spec fn spec_provision(server: LocalServer) -> ProvisionActionView {
    if !server.eula_accepted {
        ProvisionActionView::Done(Err(LauncherError::EulaNotAccepted))
    } else {
        match server.software {
            ServerSoftware::Vanilla => ProvisionActionView::Fetch(
                with_stage(server, ProvisionStage::VanillaManifest),
                spec_get(VERSION_MANIFEST_URL@),
            ),
            ServerSoftware::Paper => ProvisionActionView::Fetch(
                with_stage(server, ProvisionStage::PaperBuilds),
                spec_get(spec_paper_builds_url(server.mc_version@)),
            ),
        }
    }
}

/// One step of the installation: the vanilla jar comes from the version's
/// official server download (checked against its SHA-1), the Paper jar from the
/// latest build; then `eula.txt` is written, then `server.properties` unless it
/// exists already. Any error ends the installation.
pub open spec fn spec_provision_step(flow: ProvisionFlow, event: ProvisionEvent) -> ProvisionActionView {
    let server = flow.server;
    match (flow.stage, event) {
        (ProvisionStage::VanillaManifest, ProvisionEvent::Manifest(Err(e))) => ProvisionActionView::Done(Err(e)),
        (ProvisionStage::VanillaManifest, ProvisionEvent::Manifest(Ok(manifest))) => {
            let k = index_of_version(manifest.versions@, server.mc_version@);
            if k < 0 {
                ProvisionActionView::Done(Err(LauncherError::VersionNotFound))
            } else {
                ProvisionActionView::Fetch(
                    with_stage(server, ProvisionStage::VanillaDetails),
                    spec_get(manifest.versions@[k].url@),
                )
            }
        },
        (ProvisionStage::VanillaDetails, ProvisionEvent::Details(Err(e))) => ProvisionActionView::Done(Err(e)),
        (ProvisionStage::VanillaDetails, ProvisionEvent::Details(Ok(details))) => match details.server_jar_url {
            None => ProvisionActionView::Done(Err(LauncherError::NoServerJar)),
            Some(url) => ProvisionActionView::Download(
                with_stage(server, ProvisionStage::Downloading),
                DownloadJobView { url: url@, dest: jar_of(server), sha1: details.server_jar_sha1.deep_view() },
            ),
        },
        (ProvisionStage::PaperBuilds, ProvisionEvent::PaperBuilds(Err(e))) => ProvisionActionView::Done(Err(e)),
        (ProvisionStage::PaperBuilds, ProvisionEvent::PaperBuilds(Ok(builds))) => {
            if builds@.len() == 0 {
                ProvisionActionView::Done(Err(LauncherError::NoPaperBuild))
            } else {
                ProvisionActionView::Fetch(
                    with_stage(server, ProvisionStage::PaperBuildInfo { build: builds@.last() }),
                    spec_get(spec_paper_build_url(server.mc_version@, builds@.last())),
                )
            }
        },
        (ProvisionStage::PaperBuildInfo { build }, ProvisionEvent::PaperBuildInfo(Err(e))) =>
            ProvisionActionView::Done(Err(e)),
        (ProvisionStage::PaperBuildInfo { build }, ProvisionEvent::PaperBuildInfo(Ok(name))) =>
            ProvisionActionView::Download(
                with_stage(server, ProvisionStage::Downloading),
                DownloadJobView {
                    url: spec_paper_jar_url(server.mc_version@, build, name@),
                    dest: jar_of(server),
                    sha1: None,
                },
            ),
        (ProvisionStage::Downloading, ProvisionEvent::Downloaded) => ProvisionActionView::Write(
            with_stage(server, ProvisionStage::WritingEula),
            spec_server_dir(server.id@).push("eula.txt"@),
            EULA_ACCEPTED@,
            false,
        ),
        (ProvisionStage::WritingEula, ProvisionEvent::Written) => ProvisionActionView::Write(
            with_stage(server, ProvisionStage::WritingProperties),
            spec_server_dir(server.id@).push("server.properties"@),
            spec_server_properties(server.port, server.name@),
            true,
        ),
        (ProvisionStage::WritingProperties, ProvisionEvent::Written) => ProvisionActionView::Done(Ok(())),
        _ => ProvisionActionView::Done(Err(LauncherError::UnexpectedReply)),
    }
}

/// Starts installing `server` (its jar, `eula.txt` and `server.properties`).
pub fn provision(server: LocalServer) -> (r: ProvisionAction)
    ensures
        r@ == spec_provision(server),
{
    if !server.eula_accepted {
        return ProvisionAction::Done(Err(LauncherError::EulaNotAccepted));
    }
    match server.software {
        ServerSoftware::Vanilla => {
            let req = version_manifest_request();
            ProvisionAction::Fetch(ProvisionFlow { stage: ProvisionStage::VanillaManifest, server }, req)
        },
        ServerSoftware::Paper => {
            let req = get_request(paper_builds_url(server.mc_version.as_str()));
            ProvisionAction::Fetch(ProvisionFlow { stage: ProvisionStage::PaperBuilds, server }, req)
        },
    }
}

fn opt_copy(o: &Option<String>) -> (r: Option<String>)
    ensures
        r.deep_view() == o.deep_view(),
{
    match o {
        Some(s) => Some(s.clone()),
        None => None,
    }
}

/// Advances an installation with what the application reports.
pub fn provision_step(flow: ProvisionFlow, event: ProvisionEvent) -> (r: ProvisionAction)
    ensures
        r@ == spec_provision_step(flow, event),
{
    let server = flow.server;
    match (flow.stage, event) {
        (ProvisionStage::VanillaManifest, ProvisionEvent::Manifest(Err(e))) => ProvisionAction::Done(Err(e)),
        (ProvisionStage::VanillaManifest, ProvisionEvent::Manifest(Ok(manifest))) => {
            match find_version(&manifest, server.mc_version.as_str()) {
                None => ProvisionAction::Done(Err(LauncherError::VersionNotFound)),
                Some(entry) => {
                    let req = get_request(entry.url.clone());
                    ProvisionAction::Fetch(ProvisionFlow { stage: ProvisionStage::VanillaDetails, server }, req)
                },
            }
        },
        (ProvisionStage::VanillaDetails, ProvisionEvent::Details(Err(e))) => ProvisionAction::Done(Err(e)),
        (ProvisionStage::VanillaDetails, ProvisionEvent::Details(Ok(details))) => {
            match &details.server_jar_url {
                None => ProvisionAction::Done(Err(LauncherError::NoServerJar)),
                Some(url) => {
                    let job = DownloadJob {
                        url: url.clone(),
                        dest: server.jar_path(),
                        sha1: opt_copy(&details.server_jar_sha1),
                    };
                    ProvisionAction::Download(ProvisionFlow { stage: ProvisionStage::Downloading, server }, job)
                },
            }
        },
        (ProvisionStage::PaperBuilds, ProvisionEvent::PaperBuilds(Err(e))) => ProvisionAction::Done(Err(e)),
        (ProvisionStage::PaperBuilds, ProvisionEvent::PaperBuilds(Ok(builds))) => {
            match latest_paper_build(&builds) {
                Err(e) => ProvisionAction::Done(Err(e)),
                Ok(build) => {
                    let req = get_request(paper_build_url(server.mc_version.as_str(), build));
                    ProvisionAction::Fetch(
                        ProvisionFlow { stage: ProvisionStage::PaperBuildInfo { build }, server },
                        req,
                    )
                },
            }
        },
        (ProvisionStage::PaperBuildInfo { build }, ProvisionEvent::PaperBuildInfo(Err(e))) =>
            ProvisionAction::Done(Err(e)),
        (ProvisionStage::PaperBuildInfo { build }, ProvisionEvent::PaperBuildInfo(Ok(name))) => {
            let job = DownloadJob {
                url: paper_jar_url(server.mc_version.as_str(), build, name.as_str()),
                dest: server.jar_path(),
                sha1: None,
            };
            ProvisionAction::Download(ProvisionFlow { stage: ProvisionStage::Downloading, server }, job)
        },
        (ProvisionStage::Downloading, ProvisionEvent::Downloaded) => {
            let path = server.dir().join("eula.txt");
            ProvisionAction::Write(
                ProvisionFlow { stage: ProvisionStage::WritingEula, server },
                path,
                EULA_ACCEPTED.to_owned(),
                false,
            )
        },
        (ProvisionStage::WritingEula, ProvisionEvent::Written) => {
            let path = server.dir().join("server.properties");
            let text = server.properties();
            ProvisionAction::Write(
                ProvisionFlow { stage: ProvisionStage::WritingProperties, server },
                path,
                text,
                true,
            )
        },
        (ProvisionStage::WritingProperties, ProvisionEvent::Written) => ProvisionAction::Done(Ok(())),
        _ => ProvisionAction::Done(Err(LauncherError::UnexpectedReply)),
    }
}

/// Whatever the step, a `server.properties` written while installing a server
/// sets that server's own port and puts its name in the message of the day; it
/// is written only after `eula.txt`, and never over an existing file.
pub proof fn lemma_properties_of_server(flow: ProvisionFlow, event: ProvisionEvent)
    ensures
        match spec_provision_step(flow, event) {
            ProvisionActionView::Write(_, path, text, only_new) =>
                path == spec_server_dir(flow.server.id@).push("server.properties"@) ==> {
                    &&& text == "server-port="@ + decimal(flow.server.port as nat)
                        + "\nonline-mode=true\nmotd=Serveur "@ + flow.server.name@ + " (via DuckyLauncher)\n"@
                    &&& only_new
                    &&& flow.stage == ProvisionStage::WritingEula
                },
            _ => true,
        },
        flow.stage == ProvisionStage::WritingEula && event is Written ==> (spec_provision_step(flow, event)
            matches ProvisionActionView::Write(_, path, _, _) && path == spec_server_dir(flow.server.id@).push(
            "server.properties"@)),
{
    reveal_strlit("eula.txt");
    reveal_strlit("server.properties");
    let dir = spec_server_dir(flow.server.id@);
    assert("eula.txt"@.len() != "server.properties"@.len());
    assert(dir.push("eula.txt"@)[dir.len() as int] == "eula.txt"@);
    assert(dir.push("server.properties"@)[dir.len() as int] == "server.properties"@);
    assert(dir.push("eula.txt"@) != dir.push("server.properties"@));
}

/// Where a server's jar comes from. Vanilla: the manifest entry with the
/// server's own version gives the details, whose official server download is
/// fetched and checked against its SHA-1; a version missing from the manifest,
/// or without a server download, is an error. Paper: the last build listed is
/// described, and the file it names is fetched from that build.
pub proof fn lemma_provision_sources(flow: ProvisionFlow, event: ProvisionEvent)
    ensures
        match (flow.stage, event) {
            (ProvisionStage::VanillaManifest, ProvisionEvent::Manifest(Ok(m))) => {
                ||| (spec_provision_step(flow, event) matches ProvisionActionView::Fetch(f, req)
                    && f.stage == ProvisionStage::VanillaDetails
                    && exists|k: int| 0 <= k < m.versions@.len() && #[trigger] m.versions@[k].id@ == flow.server.mc_version@
                        && req.url == m.versions@[k].url@
                        && forall|j: int| 0 <= j < k ==> m.versions@[j].id@ != flow.server.mc_version@)
                ||| (spec_provision_step(flow, event) == ProvisionActionView::Done(Err(LauncherError::VersionNotFound))
                    && forall|j: int| 0 <= j < m.versions@.len() ==> #[trigger] m.versions@[j].id@ != flow.server.mc_version@)
            },
            (ProvisionStage::VanillaDetails, ProvisionEvent::Details(Ok(d))) => match d.server_jar_url {
                Some(u) => spec_provision_step(flow, event) matches ProvisionActionView::Download(_, job)
                    && job.url == u@ && job.sha1 == d.server_jar_sha1.deep_view(),
                None => spec_provision_step(flow, event) == ProvisionActionView::Done(Err(LauncherError::NoServerJar)),
            },
            (ProvisionStage::PaperBuilds, ProvisionEvent::PaperBuilds(Ok(b))) => if b@.len() > 0 {
                spec_provision_step(flow, event) matches ProvisionActionView::Fetch(f, req)
                    && f.stage == ProvisionStage::PaperBuildInfo { build: b@[b@.len() - 1] }
                    && req.url == PAPER_API@ + flow.server.mc_version@ + "/builds/"@ + decimal(b@[b@.len() - 1] as nat)
            } else {
                spec_provision_step(flow, event) == ProvisionActionView::Done(Err(LauncherError::NoPaperBuild))
            },
            (ProvisionStage::PaperBuildInfo { build }, ProvisionEvent::PaperBuildInfo(Ok(name))) =>
                spec_provision_step(flow, event) matches ProvisionActionView::Download(_, job)
                && job.url == PAPER_API@ + flow.server.mc_version@ + "/builds/"@ + decimal(build as nat) + "/downloads/"@ + name@
                && job.sha1 is None,
            _ => true,
        },
{
    reveal_strlit("/builds");
    reveal_strlit("/");
    reveal_strlit("/builds/");
    let base = PAPER_API@ + flow.server.mc_version@;
    assert forall|t: Seq<char>| base + "/builds"@ + "/"@ + t =~= base + "/builds/"@ + t by {}
    if let (ProvisionStage::VanillaManifest, ProvisionEvent::Manifest(Ok(m))) = (flow.stage, event) {
        lemma_index_of_version(m.versions@, flow.server.mc_version@);
        let k = index_of_version(m.versions@, flow.server.mc_version@);
        if k >= 0 {
            assert(m.versions@[k].id@ == flow.server.mc_version@);
        }
    }
}

/// A server install starts with the version manifest (vanilla) or the list of
/// Paper builds of the server's version, and `eula.txt` says the EULA is accepted.
pub proof fn lemma_provision_start(server: LocalServer)
    requires
        server.eula_accepted,
    ensures
        spec_provision(server) matches ProvisionActionView::Fetch(f, req) && f.server == server && req.url == match server.software {
            ServerSoftware::Vanilla => VERSION_MANIFEST_URL@,
            ServerSoftware::Paper => PAPER_API@ + server.mc_version@ + "/builds"@,
        },
        EULA_ACCEPTED@ == "eula=true\n"@,
{
}

/// Installing a server never downloads before the EULA is accepted; every
/// step keeps the server it installs; every download goes to the server's jar;
/// `eula.txt` is written only right after the jar was downloaded, and
/// `server.properties` only after `eula.txt` and never over an existing file.
pub proof fn lemma_provision_steps(server: LocalServer, flow: ProvisionFlow, event: ProvisionEvent)
    ensures
        !server.eula_accepted ==> spec_provision(server) == ProvisionActionView::Done(
            Err(LauncherError::EulaNotAccepted),
        ),
        spec_provision(server) matches ProvisionActionView::Fetch(f, _) ==> f.server == server,
        match spec_provision_step(flow, event) {
            ProvisionActionView::Fetch(f, _) => f.server == flow.server,
            ProvisionActionView::Download(f, job) => f.server == flow.server && job.dest == jar_of(flow.server)
                && f.stage == ProvisionStage::Downloading,
            ProvisionActionView::Write(f, path, text, only_new) => {
                &&& f.server == flow.server
                &&& path == spec_server_dir(flow.server.id@).push("eula.txt"@) ==> {
                    &&& flow.stage == ProvisionStage::Downloading
                    &&& text == EULA_ACCEPTED@
                }
                &&& path == spec_server_dir(flow.server.id@).push("server.properties"@) ==> {
                    &&& flow.stage == ProvisionStage::WritingEula
                    &&& only_new
                }
            },
            ProvisionActionView::Done(_) => true,
        },
{
    reveal_strlit("eula.txt");
    reveal_strlit("server.properties");
    assert("eula.txt"@.len() != "server.properties"@.len());
    let e = spec_server_dir(flow.server.id@).push("eula.txt"@);
    let p = spec_server_dir(flow.server.id@).push("server.properties"@);
    assert(e.last() != p.last());
}

} // verus!
