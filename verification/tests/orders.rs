use launcher_core::auth::{
    poll_step, start_poll, LoginReply, MinecraftAccount, MinecraftAuthResponse, MinecraftProfile, PollAction,
    PollEvent, PollStage, TokenErrorResponse, TokenResponse, XblAuthResponse,
};
use launcher_core::error::LauncherError;
use launcher_core::identity::Timestamp;
use launcher_core::instance::{
    mod_install_step, start_mod_install, InstalledMod, Instance, Loader, ModInstallAction, ModInstallEvent,
};
use launcher_core::launching::{launch_step, start_launch, LaunchAction, LaunchEvent, LaunchFlow, LaunchStage};
use launcher_core::loaders::forge::{forge_step, start_forge_install, ForgeAction, ForgeEvent, LoaderKind};
use launcher_core::loaders::{LoaderProfile, ProfileLibrary};
use launcher_core::minecraft::{
    version_details, Artifact, DownloadJob, LatestVersions, Library, VersionDetails, VersionEntry, VersionFields,
    VersionManifest,
};
use launcher_core::modrinth::{FileHashes, ProjectVersion, VersionFile};
use launcher_core::paths::LauncherPath;
use launcher_core::process::{CommandArg, PathArg};

fn segs(p: &LauncherPath) -> Vec<&str> {
    p.segments.iter().map(|s| s.as_str()).collect()
}

fn account(uuid: &str) -> MinecraftAccount {
    MinecraftAccount {
        mc_uuid: uuid.into(),
        mc_username: format!("player-{uuid}"),
        mc_access_token: "tok".into(),
        ms_refresh_token: "ref".into(),
        skin_url: None,
    }
}

fn instance(loader: Loader, loader_version: Option<&str>) -> Instance {
    Instance::with_identity(
        "inst".into(),
        Timestamp { secs: 1, nanos: 0 },
        "Pack",
        "1.20.1",
        loader,
        loader_version.map(String::from),
    )
}

fn manifest() -> VersionManifest {
    VersionManifest {
        latest: LatestVersions { release: "1.20.1".into(), snapshot: "x".into() },
        versions: vec![VersionEntry { id: "1.20.1".into(), version_type: "release".into(), url: "https://v/1.20.1.json".into() }],
    }
}

fn details() -> VersionDetails {
    version_details(VersionFields {
        id: Some("1.20.1".into()),
        main_class: Some("net.minecraft.client.main.Main".into()),
        asset_index_url: Some("https://a/5.json".into()),
        asset_index_id: Some("5".into()),
        client_jar_url: Some("https://c/client.jar".into()),
        client_jar_sha1: Some("abcd".into()),
        server_jar_url: None,
        server_jar_sha1: None,
        libraries: vec![Library {
            artifact: Some(Artifact {
                url: Some("https://l/lib.jar".into()),
                path: Some("org/lib/1/lib-1.jar".into()),
                sha1: Some("beef".into()),
            }),
        }],
    })
}

fn expect_fetch(a: LaunchAction) -> (LaunchFlow, String) {
    match a {
        LaunchAction::Fetch(f, r) => (f, r.url),
        _ => panic!("expected a request"),
    }
}

fn expect_download(a: LaunchAction) -> (LaunchFlow, DownloadJob) {
    match a {
        LaunchAction::Download(f, j) => (f, j),
        _ => panic!("expected a download"),
    }
}

fn expect_failure(a: LaunchAction) -> LauncherError {
    match a {
        LaunchAction::Failed(e) => e,
        _ => panic!("expected a failure"),
    }
}

/// Runs a launch up to its loader profile request (or the start), all version
/// files downloading fine.
fn through_version_files(inst: Instance) -> LaunchAction {
    let accounts = vec![account("u1"), account("u2")];
    let (flow, _) = expect_fetch(start_launch(inst, &accounts, "u2"));
    let (flow, _) = expect_fetch(launch_step(flow, LaunchEvent::Manifest(Ok(manifest()))));
    let (flow, _) = expect_download(launch_step(flow, LaunchEvent::Details(Ok(details()))));
    let (flow, _) = expect_download(launch_step(flow, LaunchEvent::Downloaded));
    let (flow, _) = expect_download(launch_step(flow, LaunchEvent::Downloaded));
    launch_step(flow, LaunchEvent::Downloaded)
}

#[test]
fn launch_looks_up_account_then_version_then_downloads_in_order() {
    let accounts = vec![account("u1"), account("u2")];
    let (flow, url) = expect_fetch(start_launch(instance(Loader::Vanilla, None), &accounts, "u2"));
    assert!(matches!(flow.stage, LaunchStage::Manifest));
    assert_eq!(flow.account.mc_uuid, "u2");
    assert_eq!(url, "https://piston-meta.mojang.com/mc/game/version_manifest_v2.json");

    let (flow, url) = expect_fetch(launch_step(flow, LaunchEvent::Manifest(Ok(manifest()))));
    assert!(matches!(flow.stage, LaunchStage::Details));
    assert_eq!(url, "https://v/1.20.1.json");

    let (flow, job) = expect_download(launch_step(flow, LaunchEvent::Details(Ok(details()))));
    assert_eq!(job.url, "https://c/client.jar");
    assert_eq!(segs(&job.dest), vec!["duckyluncher", "meta", "versions", "1.20.1", "1.20.1.jar"]);
    assert_eq!(job.sha1, Some("abcd".to_string()));
    let (flow, job) = expect_download(launch_step(flow, LaunchEvent::Downloaded));
    assert_eq!(job.url, "https://l/lib.jar");
    assert_eq!(segs(&job.dest), vec!["duckyluncher", "meta", "libraries", "org/lib/1/lib-1.jar"]);
    let (flow, job) = expect_download(launch_step(flow, LaunchEvent::Downloaded));
    assert_eq!(job.url, "https://a/5.json");
    assert_eq!(segs(&job.dest), vec!["duckyluncher", "meta", "assets", "indexes", "5.json"]);

    match launch_step(flow, LaunchEvent::Downloaded) {
        LaunchAction::Start(d, a, opts) => {
            assert_eq!(d.id, "1.20.1");
            assert_eq!(a.mc_uuid, "u2");
            assert_eq!(opts.override_main_class, None);
            assert!(opts.extra_classpath.is_empty());
            assert_eq!(opts.java_path, "java");
        },
        _ => panic!("expected the game to start"),
    }
}

#[test]
fn launch_stops_before_any_request_without_account() {
    let accounts = vec![account("u1")];
    let e = expect_failure(start_launch(instance(Loader::Vanilla, None), &accounts, "nobody"));
    assert_eq!(e, LauncherError::AccountNotFound);
    assert_eq!(e.message(), "compte introuvable");
}

#[test]
fn launch_stops_when_version_is_unknown() {
    let accounts = vec![account("u1")];
    let mut inst = instance(Loader::Vanilla, None);
    inst.mc_version = "0.0".into();
    let (flow, _) = expect_fetch(start_launch(inst, &accounts, "u1"));
    let e = expect_failure(launch_step(flow, LaunchEvent::Manifest(Ok(manifest()))));
    assert_eq!(e, LauncherError::VersionNotFound);
    assert_eq!(e.message(), "version Minecraft introuvable");
}

#[test]
fn launch_stops_at_first_failed_version_download() {
    let accounts = vec![account("u1")];
    let (flow, _) = expect_fetch(start_launch(instance(Loader::Vanilla, None), &accounts, "u1"));
    let (flow, _) = expect_fetch(launch_step(flow, LaunchEvent::Manifest(Ok(manifest()))));
    let (flow, _) = expect_download(launch_step(flow, LaunchEvent::Details(Ok(details()))));
    let e = expect_failure(launch_step(flow, LaunchEvent::DownloadFailed("connexion perdue".into())));
    assert_eq!(e, LauncherError::Transfer("connexion perdue".into()));
    assert_eq!(e.message(), "connexion perdue");
}

#[test]
fn launch_reports_service_errors_and_unexpected_events() {
    let accounts = vec![account("u1")];
    let (flow, _) = expect_fetch(start_launch(instance(Loader::Vanilla, None), &accounts, "u1"));
    let e = expect_failure(launch_step(flow, LaunchEvent::Manifest(Err(LauncherError::HttpStatus(503, "down".into())))));
    assert_eq!(e, LauncherError::HttpStatus(503, "down".into()));
    let (flow, _) = expect_fetch(start_launch(instance(Loader::Vanilla, None), &accounts, "u1"));
    assert_eq!(expect_failure(launch_step(flow, LaunchEvent::Downloaded)), LauncherError::UnexpectedReply);
}

#[test]
fn fabric_launch_installs_loader_and_skips_failed_library() {
    let (flow, url) = expect_fetch(through_version_files(instance(Loader::Fabric, Some("0.15.0"))));
    assert!(matches!(flow.stage, LaunchStage::LoaderProfile { .. }));
    assert_eq!(url, "https://meta.fabricmc.net/v2/versions/loader/1.20.1/0.15.0/profile/json");
    let profile = LoaderProfile {
        main_class: Some("net.fabricmc.loader.impl.launch.knot.KnotClient".into()),
        libraries: vec![ProfileLibrary { name: Some("net.fabricmc:fabric-loader:0.15.0".into()), url: None }],
    };
    let (flow, job) = expect_download(launch_step(flow, LaunchEvent::LoaderProfile(Ok(profile))));
    assert_eq!(job.url, "https://maven.fabricmc.net/net/fabricmc/fabric-loader/0.15.0/fabric-loader-0.15.0.jar");
    match launch_step(flow, LaunchEvent::DownloadFailed("404".into())) {
        LaunchAction::Start(_, a, opts) => {
            assert_eq!(a.mc_uuid, "u2");
            assert_eq!(opts.override_main_class, Some("net.fabricmc.loader.impl.launch.knot.KnotClient".to_string()));
            assert_eq!(opts.extra_classpath.len(), 1);
            match &opts.extra_classpath[0] {
                PathArg::Data(p) => assert_eq!(
                    segs(p),
                    vec!["duckyluncher", "meta", "libraries", "net/fabricmc/fabric-loader/0.15.0/fabric-loader-0.15.0.jar"]
                ),
                other => panic!("{:?}", other),
            }
        },
        _ => panic!("a failed loader library must not stop the launch"),
    }
}

#[test]
fn quilt_launch_fetches_quilt_profile() {
    let (_, url) = expect_fetch(through_version_files(instance(Loader::Quilt, Some("0.21.0"))));
    assert_eq!(url, "https://meta.quiltmc.org/v3/versions/loader/1.20.1/0.21.0/profile/json");
}

#[test]
fn forge_launch_starts_without_loader_install() {
    match through_version_files(instance(Loader::Forge, Some("47.2.0"))) {
        LaunchAction::Start(_, _, opts) => assert!(opts.extra_classpath.is_empty()),
        _ => panic!("Forge is installed separately"),
    }
}

#[test]
fn forge_installer_runs_only_after_its_download() {
    let action = start_forge_install(&LoaderKind::NeoForge, "1.20.4", "20.4.80", "java", "/tmp/forge-installer-20.4.80.jar", "/mc");
    let flow = match action {
        ForgeAction::Download(flow, url, dest) => {
            assert_eq!(url, "https://maven.neoforged.net/releases/net/neoforged/neoforge/20.4.80/neoforge-20.4.80-installer.jar");
            assert_eq!(dest, "/tmp/forge-installer-20.4.80.jar");
            flow
        },
        _ => panic!("the installer is downloaded first"),
    };
    match forge_step(flow, ForgeEvent::Downloaded) {
        ForgeAction::Run(flow, cmd) => {
            assert_eq!(cmd.program, "java");
            let texts: Vec<String> = cmd.args.iter().map(|a| match a {
                CommandArg::Text(t) => t.clone(),
                other => panic!("{:?}", other),
            }).collect();
            assert_eq!(texts, vec!["-jar", "/tmp/forge-installer-20.4.80.jar", "--installClient", "/mc"]);
            match forge_step(flow, ForgeEvent::Exited(false, Some(1))) {
                ForgeAction::Done(Err(e)) => {
                    assert_eq!(e, LauncherError::InstallerFailed(Some(1)));
                    assert_eq!(e.message(), "l'installer Forge/NeoForge a échoué (code Some(1))");
                },
                _ => panic!("a failed installer is an error"),
            }
        },
        _ => panic!("the installer runs once downloaded"),
    }
}

#[test]
fn forge_install_ends_on_failed_download_and_succeeds_on_exit_zero() {
    let start = || start_forge_install(&LoaderKind::Forge, "1.20.1", "47.2.0", "java", "/tmp/i.jar", "/mc");
    let flow = match start() {
        ForgeAction::Download(flow, url, _) => {
            assert_eq!(url, "https://maven.minecraftforge.net/net/minecraftforge/forge/1.20.1-47.2.0/forge-1.20.1-47.2.0-installer.jar");
            flow
        },
        _ => panic!("download first"),
    };
    match forge_step(flow, ForgeEvent::DownloadFailed("timeout".into())) {
        ForgeAction::Done(Err(e)) => assert_eq!(e, LauncherError::Transfer("timeout".into())),
        _ => panic!("a failed download ends the installation"),
    }
    let flow = match start() {
        ForgeAction::Download(flow, _, _) => flow,
        _ => panic!("download first"),
    };
    let flow = match forge_step(flow, ForgeEvent::Downloaded) {
        ForgeAction::Run(flow, _) => flow,
        _ => panic!("run"),
    };
    assert!(matches!(forge_step(flow, ForgeEvent::Exited(true, Some(0))), ForgeAction::Done(Ok(()))));
    let flow = match start() {
        ForgeAction::Download(flow, _, _) => flow,
        _ => panic!("download first"),
    };
    assert!(matches!(
        forge_step(flow, ForgeEvent::Exited(true, Some(0))),
        ForgeAction::Done(Err(LauncherError::UnexpectedReply))
    ));
}

fn file(name: &str, primary: bool) -> VersionFile {
    VersionFile {
        url: format!("https://cdn/{name}"),
        filename: name.into(),
        primary,
        hashes: FileHashes { sha1: "s".into(), sha512: "t".into() },
    }
}

fn mod_version(files: Vec<VersionFile>) -> ProjectVersion {
    ProjectVersion {
        id: "v2".into(),
        project_id: "p".into(),
        version_number: "2.0".into(),
        game_versions: vec![],
        loaders: vec![],
        files,
        dependencies: vec![],
    }
}

#[test]
fn mod_is_recorded_only_after_its_download() {
    let mut inst = instance(Loader::Fabric, Some("0.15.0"));
    inst.mods.push(InstalledMod { project_id: "p".into(), version_id: "v1".into(), filename: "old.jar".into(), name: "1.0".into() });
    inst.mods.push(InstalledMod { project_id: "q".into(), version_id: "w".into(), filename: "q.jar".into(), name: "q".into() });
    let version = mod_version(vec![file("a.jar", false), file("b.jar", true)]);
    let flow = match start_mod_install(inst.clone(), "p", version, "2.0") {
        ModInstallAction::Download(flow, url, dest) => {
            assert_eq!(url, "https://cdn/b.jar");
            assert_eq!(segs(&dest), vec!["duckyluncher", "instances", "inst", "mods", "b.jar"]);
            assert_eq!(flow.instance, inst);
            flow
        },
        _ => panic!("the file is downloaded first"),
    };
    match mod_install_step(flow, ModInstallEvent::Downloaded("b.jar".into())) {
        ModInstallAction::Save(saved) => {
            assert_eq!(saved.mods.len(), 2);
            assert_eq!(saved.mods[0].project_id, "q");
            assert_eq!(
                saved.mods[1],
                InstalledMod { project_id: "p".into(), version_id: "v2".into(), filename: "b.jar".into(), name: "2.0".into() }
            );
        },
        _ => panic!("the instance is saved after the download"),
    }
}

#[test]
fn failed_mod_download_records_nothing() {
    let inst = instance(Loader::Fabric, Some("0.15.0"));
    let flow = match start_mod_install(inst, "p", mod_version(vec![file("a.jar", false)]), "2.0") {
        ModInstallAction::Download(flow, url, _) => {
            assert_eq!(url, "https://cdn/a.jar");
            flow
        },
        _ => panic!("download first"),
    };
    match mod_install_step(flow, ModInstallEvent::DownloadFailed("HTTP 404".into())) {
        ModInstallAction::Failed(e) => assert_eq!(e.message(), "HTTP 404"),
        _ => panic!("nothing is saved"),
    }
    match start_mod_install(instance(Loader::Vanilla, None), "p", mod_version(vec![]), "2.0") {
        ModInstallAction::Failed(e) => {
            assert_eq!(e, LauncherError::NoVersionFile);
            assert_eq!(e.message(), "aucun fichier disponible pour cette version");
        },
        _ => panic!("a version without files cannot be installed"),
    }
}

fn xbl(token: &str, uhs: Option<&str>) -> XblAuthResponse {
    let claims = match uhs {
        Some(u) => vec![vec![("uhs".to_string(), u.to_string())]],
        None => vec![],
    };
    XblAuthResponse { token: token.into(), xui: claims }
}

fn expect_send(a: PollAction) -> (PollStage, String) {
    match a {
        PollAction::Send(s, r) => (s, r.url),
        _ => panic!("expected a request"),
    }
}

#[test]
fn poll_without_pending_sign_in_sends_nothing() {
    match start_poll(&None) {
        PollAction::Done(Err(e), over) => {
            assert_eq!(e, LauncherError::NoPendingLogin);
            assert_eq!(e.message(), "aucune connexion en cours");
            assert!(!over);
        },
        _ => panic!("nothing is pending"),
    }
}

#[test]
fn poll_waits_while_user_has_not_approved() {
    let (stage, url) = expect_send(start_poll(&Some("dev".into())));
    assert!(matches!(stage, PollStage::Polling));
    assert_eq!(url, "https://login.microsoftonline.com/consumers/oauth2/v2.0/token");
    let pending = TokenErrorResponse { error: "authorization_pending".into() };
    assert!(matches!(
        poll_step(stage, PollEvent::TokenReply(400, None, Some(pending))),
        PollAction::Done(Ok(None), false)
    ));
    let (stage, _) = expect_send(start_poll(&Some("dev".into())));
    let expired = TokenErrorResponse { error: "expired_token".into() };
    match poll_step(stage, PollEvent::TokenReply(400, None, Some(expired))) {
        PollAction::Done(Err(e), over) => {
            assert_eq!(e, LauncherError::MicrosoftAuth("expired_token".into()));
            assert!(!over);
        },
        _ => panic!("a refusal ends the poll"),
    }
}

#[test]
fn poll_saves_account_before_forgetting_pending_sign_in() {
    let (stage, _) = expect_send(start_poll(&Some("dev".into())));
    let tok = TokenResponse { access_token: "A".into(), refresh_token: "R".into(), expires_in: 3600 };
    let (stage, url) = expect_send(poll_step(stage, PollEvent::TokenReply(200, Some(tok), None)));
    assert_eq!(url, "https://user.auth.xboxlive.com/user/authenticate");
    let (stage, url) = expect_send(poll_step(
        stage,
        PollEvent::Login(LoginReply::XboxLive(200, String::new(), Some(xbl("XBL", Some("UHS"))))),
    ));
    assert_eq!(url, "https://xsts.auth.xboxlive.com/xsts/authorize");
    let (stage, _) = expect_send(poll_step(stage, PollEvent::Login(LoginReply::Xsts(200, String::new(), Some(xbl("XSTS", None))))));
    let (stage, url) = expect_send(poll_step(
        stage,
        PollEvent::Login(LoginReply::MinecraftToken(200, String::new(), Some(MinecraftAuthResponse { access_token: "MC".into() }))),
    ));
    assert_eq!(url, "https://api.minecraftservices.com/minecraft/profile");
    let profile = MinecraftProfile { id: "uuid-9".into(), name: "Alex".into(), skins: vec![] };
    let stage = match poll_step(stage, PollEvent::Login(LoginReply::Profile(200, String::new(), Some(profile)))) {
        PollAction::Save(stage, account) => {
            assert_eq!(account.mc_uuid, "uuid-9");
            assert_eq!(account.ms_refresh_token, "R");
            stage
        },
        _ => panic!("the account is saved before the poll ends"),
    };
    match poll_step(stage, PollEvent::Saved) {
        PollAction::Done(Ok(Some(account)), over) => {
            assert_eq!(account.mc_username, "Alex");
            assert!(over);
        },
        _ => panic!("the poll ends with the saved account"),
    }
}

#[test]
fn poll_sign_in_error_keeps_sign_in_pending() {
    let (stage, _) = expect_send(start_poll(&Some("dev".into())));
    let tok = TokenResponse { access_token: "A".into(), refresh_token: "R".into(), expires_in: 3600 };
    let (stage, _) = expect_send(poll_step(stage, PollEvent::TokenReply(200, Some(tok), None)));
    match poll_step(stage, PollEvent::Login(LoginReply::XboxLive(200, String::new(), Some(xbl("XBL", None))))) {
        PollAction::Done(Err(e), over) => {
            assert_eq!(e, LauncherError::MissingUserHash);
            assert!(!over);
        },
        _ => panic!("a sign-in error ends the poll"),
    }
    let (stage, _) = expect_send(start_poll(&Some("dev".into())));
    assert!(matches!(poll_step(stage, PollEvent::Saved), PollAction::Done(Err(LauncherError::UnexpectedReply), false)));
}
