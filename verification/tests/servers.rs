use launcher_core::error::LauncherError;
use launcher_core::identity::Timestamp;
use launcher_core::minecraft::{
    version_details, LatestVersions, VersionEntry, VersionFields, VersionManifest,
};
use launcher_core::paths::LauncherPath;
use launcher_core::process::{CommandArg, PathArg};
use launcher_core::server::{
    latest_paper_build, paper_build_url, paper_builds_url, paper_jar_url, provision,
    provision_step, software_named, start, LocalServer, ProvisionAction, ProvisionEvent,
    ProvisionFlow, ProvisionStage, ServerSoftware,
};

fn segs(p: &LauncherPath) -> Vec<&str> {
    p.segments.iter().map(|s| s.as_str()).collect()
}

fn server(software: ServerSoftware, eula: bool) -> LocalServer {
    let mut s = LocalServer::with_identity("srv".into(), Timestamp { secs: 5, nanos: 0 }, "Friends", "1.20.1", software);
    s.eula_accepted = eula;
    s
}

#[test]
fn fresh_server_defaults() {
    let s = server(ServerSoftware::Paper, false);
    assert_eq!(s.port, 25565);
    assert_eq!((s.memory_min_mb, s.memory_max_mb), (1024, 4096));
    assert_eq!(s.java_path, "java");
    assert!(!s.eula_accepted);
    assert_eq!(segs(&s.dir()), vec!["duckyluncher", "servers", "srv"]);
    assert_eq!(segs(&s.jar_path()), vec!["duckyluncher", "servers", "srv", "server.jar"]);
    assert_eq!(segs(&s.manifest_path()), vec!["duckyluncher", "servers", "srv", "server.json"]);
    let n = LocalServer::new("x", "1.20.1", ServerSoftware::Vanilla);
    assert_eq!(n.id.len(), 36);
}

#[test]
fn software_names() {
    assert_eq!(software_named("paper"), ServerSoftware::Paper);
    assert_eq!(software_named("vanilla"), ServerSoftware::Vanilla);
    assert_eq!(software_named("Paper"), ServerSoftware::Vanilla);
}

#[test]
fn server_properties_text() {
    let mut s = server(ServerSoftware::Vanilla, true);
    s.port = 25570;
    assert_eq!(s.properties(), "server-port=25570\nonline-mode=true\nmotd=Serveur Friends (via DuckyLauncher)\n");
}

#[test]
fn paper_urls() {
    assert_eq!(paper_builds_url("1.20.1"), "https://api.papermc.io/v2/projects/paper/versions/1.20.1/builds");
    assert_eq!(paper_build_url("1.20.1", 196), "https://api.papermc.io/v2/projects/paper/versions/1.20.1/builds/196");
    assert_eq!(
        paper_jar_url("1.20.1", 196, "paper-1.20.1-196.jar"),
        "https://api.papermc.io/v2/projects/paper/versions/1.20.1/builds/196/downloads/paper-1.20.1-196.jar"
    );
    assert_eq!(latest_paper_build(&vec![1, 2, 196]), Ok(196));
    let e = latest_paper_build(&vec![]).unwrap_err();
    assert_eq!(e.message(), "aucun build Paper disponible pour cette version");
}

#[test]
fn start_command() {
    let s = server(ServerSoftware::Vanilla, true);
    let cmd = start(&s, true).unwrap();
    assert_eq!(cmd.program, "java");
    assert_eq!(cmd.working_dir, Some(PathArg::Data(s.dir())));
    assert!(cmd.piped_stdio);
    let texts: Vec<String> = cmd.args.iter().map(|a| match a {
        CommandArg::Text(t) => t.clone(),
        other => panic!("{:?}", other),
    }).collect();
    assert_eq!(texts, vec!["-Xms1024M", "-Xmx4096M", "-jar", "server.jar", "nogui"]);
    let e = start(&s, false).unwrap_err();
    assert_eq!(e, LauncherError::ServerJarMissing);
    assert_eq!(e.message(), "le jar du serveur n'est pas installé — appelle provision() d'abord");
}

#[test]
fn provision_refused_without_eula() {
    match provision(server(ServerSoftware::Vanilla, false)) {
        ProvisionAction::Done(Err(e)) => {
            assert_eq!(e, LauncherError::EulaNotAccepted);
            assert_eq!(
                e.message(),
                "l'EULA Minecraft (https://aka.ms/MinecraftEULA) doit être acceptée avant l'installation"
            );
        },
        _ => panic!("provisioning must be refused"),
    }
}

fn expect_fetch(a: ProvisionAction) -> (ProvisionFlow, String) {
    match a {
        ProvisionAction::Fetch(f, r) => (f, r.url),
        _ => panic!("expected a request"),
    }
}

fn manifest() -> VersionManifest {
    VersionManifest {
        latest: LatestVersions { release: "1.20.1".into(), snapshot: "x".into() },
        versions: vec![VersionEntry { id: "1.20.1".into(), version_type: "release".into(), url: "https://v/1.20.1.json".into() }],
    }
}

fn details(server_url: Option<&str>) -> launcher_core::minecraft::VersionDetails {
    version_details(VersionFields {
        id: Some("1.20.1".into()),
        main_class: None,
        asset_index_url: None,
        asset_index_id: None,
        client_jar_url: None,
        client_jar_sha1: None,
        server_jar_url: server_url.map(String::from),
        server_jar_sha1: Some("ffff".into()),
        libraries: vec![],
    })
}

#[test]
fn vanilla_provisioning_flow() {
    let s = server(ServerSoftware::Vanilla, true);
    let (flow, url) = expect_fetch(provision(s.clone()));
    assert_eq!(flow.stage, ProvisionStage::VanillaManifest);
    assert_eq!(url, "https://piston-meta.mojang.com/mc/game/version_manifest_v2.json");
    let (flow, url) = expect_fetch(provision_step(flow, ProvisionEvent::Manifest(Ok(manifest()))));
    assert_eq!(url, "https://v/1.20.1.json");
    let (flow, job) = match provision_step(flow, ProvisionEvent::Details(Ok(details(Some("https://s/server.jar"))))) {
        ProvisionAction::Download(f, j) => (f, j),
        _ => panic!("expected a download"),
    };
    assert_eq!(job.url, "https://s/server.jar");
    assert_eq!(job.dest, s.jar_path());
    assert_eq!(job.sha1, Some("ffff".to_string()));
    let flow = match provision_step(flow, ProvisionEvent::Downloaded) {
        ProvisionAction::Write(f, path, text, only_new) => {
            assert_eq!(segs(&path), vec!["duckyluncher", "servers", "srv", "eula.txt"]);
            assert_eq!(text, "eula=true\n");
            assert!(!only_new);
            f
        },
        _ => panic!("expected eula.txt"),
    };
    let flow = match provision_step(flow, ProvisionEvent::Written) {
        ProvisionAction::Write(f, path, text, only_new) => {
            assert_eq!(segs(&path), vec!["duckyluncher", "servers", "srv", "server.properties"]);
            assert_eq!(text, s.properties());
            assert!(only_new);
            f
        },
        _ => panic!("expected server.properties"),
    };
    assert_eq!(flow.server, s);
    assert!(matches!(provision_step(flow, ProvisionEvent::Written), ProvisionAction::Done(Ok(()))));
}

#[test]
fn vanilla_provisioning_errors() {
    let mut s = server(ServerSoftware::Vanilla, true);
    s.mc_version = "0.0".into();
    let (flow, _) = expect_fetch(provision(s.clone()));
    match provision_step(flow, ProvisionEvent::Manifest(Ok(manifest()))) {
        ProvisionAction::Done(Err(e)) => assert_eq!(e.message(), "version Minecraft introuvable"),
        _ => panic!("version must be missing"),
    }
    let flow = ProvisionFlow { stage: ProvisionStage::VanillaDetails, server: s.clone() };
    match provision_step(flow, ProvisionEvent::Details(Ok(details(None)))) {
        ProvisionAction::Done(Err(e)) => {
            assert_eq!(e, LauncherError::NoServerJar);
            assert_eq!(e.message(), "pas de jar serveur officiel pour cette version");
        },
        _ => panic!("no server jar"),
    }
    let flow = ProvisionFlow { stage: ProvisionStage::VanillaManifest, server: s.clone() };
    assert!(matches!(
        provision_step(flow, ProvisionEvent::Manifest(Err(LauncherError::HttpStatus(500, "boom".into())))),
        ProvisionAction::Done(Err(LauncherError::HttpStatus(500, ref r))) if r == "boom"
    ));
    let flow = ProvisionFlow { stage: ProvisionStage::Downloading, server: s };
    assert!(matches!(
        provision_step(flow, ProvisionEvent::Written),
        ProvisionAction::Done(Err(LauncherError::UnexpectedReply))
    ));
}

#[test]
fn paper_provisioning_flow() {
    let s = server(ServerSoftware::Paper, true);
    let (flow, url) = expect_fetch(provision(s.clone()));
    assert_eq!(url, "https://api.papermc.io/v2/projects/paper/versions/1.20.1/builds");
    let (flow, url) = expect_fetch(provision_step(flow, ProvisionEvent::PaperBuilds(Ok(vec![10, 11, 12]))));
    assert_eq!(flow.stage, ProvisionStage::PaperBuildInfo { build: 12 });
    assert_eq!(url, "https://api.papermc.io/v2/projects/paper/versions/1.20.1/builds/12");
    match provision_step(flow, ProvisionEvent::PaperBuildInfo(Ok("paper-1.20.1-12.jar".into()))) {
        ProvisionAction::Download(f, job) => {
            assert_eq!(f.stage, ProvisionStage::Downloading);
            assert_eq!(job.url, "https://api.papermc.io/v2/projects/paper/versions/1.20.1/builds/12/downloads/paper-1.20.1-12.jar");
            assert_eq!(job.dest, s.jar_path());
            assert_eq!(job.sha1, None);
        },
        _ => panic!("expected a download"),
    }
    let flow = ProvisionFlow { stage: ProvisionStage::PaperBuilds, server: s };
    assert!(matches!(
        provision_step(flow, ProvisionEvent::PaperBuilds(Ok(vec![]))),
        ProvisionAction::Done(Err(LauncherError::NoPaperBuild))
    ));
}
