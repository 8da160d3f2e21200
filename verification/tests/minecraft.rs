use launcher_core::auth::MinecraftAccount;
use launcher_core::minecraft::{
    cached_file_matches, download_check, find_version, launch, version_details,
    version_install_plan, version_manifest_request, Artifact, DownloadCheck, LatestVersions,
    LaunchOptions, Library, VersionEntry, VersionFields, VersionManifest,
};
use launcher_core::paths::LauncherPath;
use launcher_core::process::{CommandArg, PathArg};

fn segs(p: &LauncherPath) -> Vec<&str> {
    p.segments.iter().map(|s| s.as_str()).collect()
}

fn entry(id: &str, url: &str) -> VersionEntry {
    VersionEntry { id: id.into(), version_type: "release".into(), url: url.into() }
}

fn manifest() -> VersionManifest {
    VersionManifest {
        latest: LatestVersions { release: "1.20.1".into(), snapshot: "23w31a".into() },
        versions: vec![entry("1.20.1", "u1"), entry("1.19", "u2"), entry("1.20.1", "u3")],
    }
}

fn lib(url: Option<&str>, path: Option<&str>, sha1: Option<&str>) -> Library {
    Library {
        artifact: Some(Artifact {
            url: url.map(String::from),
            path: path.map(String::from),
            sha1: sha1.map(String::from),
        }),
    }
}

fn fields() -> VersionFields {
    VersionFields {
        id: Some("1.20.1".into()),
        main_class: Some("net.minecraft.client.main.Main".into()),
        asset_index_url: Some("https://assets/5.json".into()),
        asset_index_id: Some("5".into()),
        client_jar_url: Some("https://client.jar".into()),
        client_jar_sha1: Some("abc".into()),
        server_jar_url: Some("https://server.jar".into()),
        server_jar_sha1: None,
        libraries: vec![
            lib(Some("https://l/a.jar"), Some("a/a.jar"), Some("s1")),
            lib(Some(""), Some("b/b.jar"), None),
            Library { artifact: None },
            lib(None, Some("c/c.jar"), None),
            lib(Some("https://l/d.jar"), Some("d/d.jar"), None),
        ],
    }
}

#[test]
fn manifest_request_url() {
    let r = version_manifest_request();
    assert_eq!(r.url, "https://piston-meta.mojang.com/mc/game/version_manifest_v2.json");
}

#[test]
fn finds_first_version_with_id() {
    let m = manifest();
    assert_eq!(find_version(&m, "1.20.1").unwrap().url, "u1");
    assert_eq!(find_version(&m, "1.19").unwrap().url, "u2");
    assert!(find_version(&m, "1.8").is_none());
}

#[test]
fn missing_fields_read_as_empty() {
    let mut f = fields();
    f.main_class = None;
    f.asset_index_url = None;
    let d = version_details(f);
    assert_eq!(d.id, "1.20.1");
    assert_eq!(d.main_class, "");
    assert_eq!(d.asset_index_url, "");
    assert_eq!(d.client_jar_sha1, "abc");
    assert_eq!(d.server_jar_url, Some("https://server.jar".to_string()));
    assert_eq!(d.libraries.len(), 5);
}

#[test]
fn download_checks() {
    assert_eq!(download_check(false, Some("x")), DownloadCheck::Fetch);
    assert_eq!(download_check(false, None), DownloadCheck::Fetch);
    assert_eq!(download_check(true, None), DownloadCheck::Keep);
    assert_eq!(download_check(true, Some("x")), DownloadCheck::CompareSha1);
}

#[test]
fn cached_file_compared_by_sha1_hex() {
    assert!(cached_file_matches(b"abc", "a9993e364706816aba3e25717850c26c9cd0d89d"));
    assert!(cached_file_matches(b"", "da39a3ee5e6b4b0d3255bfef95601890afd80709"));
    assert!(!cached_file_matches(b"abc", "A9993E364706816ABA3E25717850C26C9CD0D89D"));
    assert!(!cached_file_matches(b"abd", "a9993e364706816aba3e25717850c26c9cd0d89d"));
}

#[test]
fn install_plan_lists_client_libraries_assets() {
    let d = version_details(fields());
    let (jobs, client) = version_install_plan(&d);
    assert_eq!(segs(&client), vec!["duckyluncher", "meta", "versions", "1.20.1", "1.20.1.jar"]);
    assert_eq!(jobs.len(), 4);
    assert_eq!(jobs[0].url, "https://client.jar");
    assert_eq!(jobs[0].dest, client);
    assert_eq!(jobs[0].sha1, Some("abc".to_string()));
    assert_eq!(jobs[1].url, "https://l/a.jar");
    assert_eq!(segs(&jobs[1].dest), vec!["duckyluncher", "meta", "libraries", "a/a.jar"]);
    assert_eq!(jobs[1].sha1, Some("s1".to_string()));
    assert_eq!(jobs[2].url, "https://l/d.jar");
    assert_eq!(jobs[2].sha1, None);
    assert_eq!(jobs[3].url, "https://assets/5.json");
    assert_eq!(segs(&jobs[3].dest), vec!["duckyluncher", "meta", "assets", "indexes", "5.json"]);
    let mut no_assets = fields();
    no_assets.asset_index_url = Some(String::new());
    let (jobs, _) = version_install_plan(&version_details(no_assets));
    assert_eq!(jobs.len(), 3);
}

fn text(a: &CommandArg) -> &str {
    match a {
        CommandArg::Text(s) => s.as_str(),
        other => panic!("not a text argument: {:?}", other),
    }
}

#[test]
fn launch_command_arguments() {
    let d = version_details(fields());
    let account = MinecraftAccount {
        mc_uuid: "UUID".into(),
        mc_username: "Steve".into(),
        mc_access_token: "TOKEN".into(),
        ms_refresh_token: "R".into(),
        skin_url: None,
    };
    let opts = LaunchOptions {
        java_path: "java".into(),
        memory_min_mb: 1024,
        memory_max_mb: 4096,
        game_dir: PathArg::Given("/games/x".into()),
        width: 854,
        height: 480,
        extra_classpath: vec![PathArg::Given("/loader/fabric.jar".into())],
        override_main_class: None,
    };
    let cmd = launch(&d, &account, &opts);
    assert_eq!(cmd.program, "java");
    assert_eq!(cmd.working_dir, Some(PathArg::Given("/games/x".into())));
    assert!(!cmd.piped_stdio);
    assert_eq!(cmd.args.len(), 26);
    assert_eq!(text(&cmd.args[0]), "-Xms1024M");
    assert_eq!(text(&cmd.args[1]), "-Xmx4096M");
    match &cmd.args[2] {
        CommandArg::DataPath(prefix, p) => {
            assert_eq!(prefix, "-Djava.library.path=");
            assert_eq!(segs(p), vec!["duckyluncher", "meta", "versions", "1.20.1", "natives"]);
        },
        other => panic!("{:?}", other),
    }
    assert_eq!(text(&cmd.args[3]), "-cp");
    match &cmd.args[4] {
        CommandArg::Classpath(items) => {
            assert_eq!(items.len(), 6);
            assert_eq!(items[0], PathArg::Given("/loader/fabric.jar".into()));
            let libs: Vec<Vec<&str>> = items[1..5].iter().map(|i| match i {
                PathArg::Data(p) => segs(p),
                other => panic!("{:?}", other),
            }).collect();
            assert_eq!(libs[0], vec!["duckyluncher", "meta", "libraries", "a/a.jar"]);
            assert_eq!(libs[1], vec!["duckyluncher", "meta", "libraries", "b/b.jar"]);
            assert_eq!(libs[2], vec!["duckyluncher", "meta", "libraries", "c/c.jar"]);
            assert_eq!(libs[3], vec!["duckyluncher", "meta", "libraries", "d/d.jar"]);
            match &items[5] {
                PathArg::Data(p) => assert_eq!(segs(p), vec!["duckyluncher", "meta", "versions", "1.20.1", "1.20.1.jar"]),
                other => panic!("{:?}", other),
            }
        },
        other => panic!("{:?}", other),
    }
    let rest: Vec<&str> = cmd.args[5..17].iter().map(text).collect();
    assert_eq!(rest, vec![
        "net.minecraft.client.main.Main",
        "--username", "Steve", "--uuid", "UUID", "--accessToken", "TOKEN",
        "--version", "1.20.1", "--gameDir", "/games/x", "--assetsDir",
    ]);
    match &cmd.args[17] {
        CommandArg::DataPath(prefix, p) => {
            assert_eq!(prefix, "");
            assert_eq!(segs(p), vec!["duckyluncher", "meta", "assets"]);
        },
        other => panic!("{:?}", other),
    }
    let tail: Vec<&str> = cmd.args[18..].iter().map(text).collect();
    assert_eq!(tail, vec!["--assetIndex", "5", "--userType", "msa", "--width", "854", "--height", "480"]);
}

#[test]
fn loader_main_class_overrides_vanilla() {
    let d = version_details(fields());
    let account = MinecraftAccount {
        mc_uuid: "U".into(), mc_username: "N".into(), mc_access_token: "T".into(),
        ms_refresh_token: "R".into(), skin_url: None,
    };
    let opts = LaunchOptions {
        java_path: "/usr/bin/java".into(), memory_min_mb: 512, memory_max_mb: 2048,
        game_dir: PathArg::Given("g".into()), width: 1, height: 2,
        extra_classpath: vec![], override_main_class: Some("Knot".into()),
    };
    let cmd = launch(&d, &account, &opts);
    assert_eq!(text(&cmd.args[5]), "Knot");
    assert_eq!(text(&cmd.args[0]), "-Xms512M");
}
