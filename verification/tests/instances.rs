use launcher_core::identity::{sort_newest_first, Timestamp};
use launcher_core::instance::{
    install_mod, launch_options, loader_named, loader_setup, remove_mod, InstalledMod, Instance,
    Loader, LoaderSetup,
};
use launcher_core::loaders::LoaderInstall;
use launcher_core::modrinth::ProjectVersion;
use launcher_core::paths::{app_data_dir, LauncherPath};
use launcher_core::process::PathArg;

fn segs(p: &LauncherPath) -> Vec<&str> {
    p.segments.iter().map(|s| s.as_str()).collect()
}

fn ts(secs: i64, nanos: u32) -> Timestamp {
    Timestamp { secs, nanos }
}

fn inst(id: &str, at: Timestamp) -> Instance {
    Instance::with_identity(id.to_string(), at, "My pack", "1.20.1", Loader::Fabric, Some("0.15.0".into()))
}

fn version(id: &str) -> ProjectVersion {
    ProjectVersion {
        id: id.into(),
        project_id: "p".into(),
        version_number: "1.0".into(),
        game_versions: vec![],
        loaders: vec![],
        files: vec![],
        dependencies: vec![],
    }
}

fn installed(project: &str, version: &str) -> InstalledMod {
    InstalledMod { project_id: project.into(), version_id: version.into(), filename: format!("{project}.jar"), name: project.into() }
}

#[test]
fn fresh_instance_defaults() {
    let i = inst("id-1", ts(10, 0));
    assert_eq!(i.id, "id-1");
    assert_eq!(i.name, "My pack");
    assert_eq!(i.mc_version, "1.20.1");
    assert_eq!(i.loader, Loader::Fabric);
    assert_eq!(i.loader_version, Some("0.15.0".to_string()));
    assert_eq!(i.icon, None);
    assert_eq!(i.memory_min_mb, 1024);
    assert_eq!(i.memory_max_mb, 4096);
    assert_eq!(i.java_path, None);
    assert!(i.mods.is_empty());
    assert_eq!(i.created_at, ts(10, 0));
}

#[test]
fn new_instance_gets_random_uuid_and_current_time() {
    let a = Instance::new("a", "1.20.1", Loader::Vanilla, None);
    let b = Instance::new("b", "1.20.1", Loader::Vanilla, None);
    assert_ne!(a.id, b.id);
    assert_eq!(a.id.len(), 36);
    let chars: Vec<char> = a.id.chars().collect();
    for (i, c) in chars.iter().enumerate() {
        if [8, 13, 18, 23].contains(&i) {
            assert_eq!(*c, '-');
        } else {
            assert!(c.is_ascii_hexdigit() && !c.is_ascii_uppercase());
        }
    }
    assert_eq!(chars[14], '4');
    assert!(['8', '9', 'a', 'b'].contains(&chars[19]));
    assert!(a.created_at.secs > 1_600_000_000);
    assert!(a.created_at.nanos < 1_000_000_000);
}

#[test]
fn loader_names() {
    assert_eq!(loader_named("fabric"), Loader::Fabric);
    assert_eq!(loader_named("quilt"), Loader::Quilt);
    assert_eq!(loader_named("forge"), Loader::Forge);
    assert_eq!(loader_named("neoforge"), Loader::NeoForge);
    assert_eq!(loader_named("Fabric"), Loader::Vanilla);
    assert_eq!(loader_named(""), Loader::Vanilla);
}

#[test]
fn instance_folders() {
    let i = inst("abc", ts(0, 0));
    assert_eq!(segs(&i.dir()), vec!["duckyluncher", "instances", "abc"]);
    assert_eq!(segs(&i.mods_dir()), vec!["duckyluncher", "instances", "abc", "mods"]);
    assert_eq!(segs(&i.resourcepacks_dir()), vec!["duckyluncher", "instances", "abc", "resourcepacks"]);
    assert_eq!(segs(&i.shaderpacks_dir()), vec!["duckyluncher", "instances", "abc", "shaderpacks"]);
    assert_eq!(segs(&i.manifest_path()), vec!["duckyluncher", "instances", "abc", "instance.json"]);
}

#[test]
fn installing_replaces_same_project_and_appends() {
    let mut i = inst("x", ts(0, 0));
    i.mods = vec![installed("sodium", "v1"), installed("iris", "v1"), installed("lithium", "v1")];
    install_mod(&mut i, "sodium", &version("v2"), "sodium-2.jar".into(), "Sodium");
    let ids: Vec<(&str, &str)> = i.mods.iter().map(|m| (m.project_id.as_str(), m.version_id.as_str())).collect();
    assert_eq!(ids, vec![("iris", "v1"), ("lithium", "v1"), ("sodium", "v2")]);
    let last = i.mods.last().unwrap();
    assert_eq!(last.filename, "sodium-2.jar");
    assert_eq!(last.name, "Sodium");
    assert_eq!(i.name, "My pack");
}

#[test]
fn installing_twice_is_like_once() {
    let mut a = inst("x", ts(0, 0));
    a.mods = vec![installed("p1", "v1")];
    install_mod(&mut a, "p2", &version("v9"), "f.jar".into(), "P2");
    let once = a.clone();
    install_mod(&mut a, "p2", &version("v9"), "f.jar".into(), "P2");
    assert_eq!(a, once);
}

#[test]
fn removing_takes_out_the_mod() {
    let mut i = inst("x", ts(0, 0));
    i.mods = vec![installed("a", "1"), installed("b", "1"), installed("c", "1")];
    let removed = remove_mod(&mut i, "b").unwrap();
    assert_eq!(removed.project_id, "b");
    let ids: Vec<&str> = i.mods.iter().map(|m| m.project_id.as_str()).collect();
    assert_eq!(ids, vec!["a", "c"]);
    assert_eq!(remove_mod(&mut i, "zzz"), None);
    assert_eq!(i.mods.len(), 2);
}

#[test]
fn install_then_remove_leaves_other_projects() {
    let mut i = inst("x", ts(0, 0));
    i.mods = vec![installed("a", "1"), installed("b", "1")];
    install_mod(&mut i, "a", &version("2"), "a2.jar".into(), "A");
    remove_mod(&mut i, "a");
    let ids: Vec<&str> = i.mods.iter().map(|m| m.project_id.as_str()).collect();
    assert_eq!(ids, vec!["b"]);
}

#[test]
fn listing_is_newest_first_and_stable() {
    let items = vec![
        inst("old", ts(100, 0)),
        inst("tie-1", ts(200, 5)),
        inst("newest", ts(300, 0)),
        inst("tie-2", ts(200, 5)),
        inst("mid", ts(200, 1)),
    ];
    let sorted = sort_newest_first(items);
    let ids: Vec<&str> = sorted.iter().map(|i| i.id.as_str()).collect();
    assert_eq!(ids, vec!["newest", "tie-1", "tie-2", "mid", "old"]);
    assert!(sort_newest_first(Vec::<Instance>::new()).is_empty());
}

#[test]
fn timestamps_order() {
    assert!(ts(1, 0).is_earlier_than(&ts(2, 0)));
    assert!(ts(1, 5).is_earlier_than(&ts(1, 6)));
    assert!(!ts(1, 6).is_earlier_than(&ts(1, 6)));
    assert!(!ts(3, 0).is_earlier_than(&ts(2, 999)));
}

#[test]
fn loader_to_install_before_launch() {
    assert!(matches!(loader_setup(&inst("x", ts(0, 0))), Some(LoaderSetup::Fabric(v)) if v == "0.15.0"));
    let mut q = inst("x", ts(0, 0));
    q.loader = Loader::Quilt;
    assert!(matches!(loader_setup(&q), Some(LoaderSetup::Quilt(_))));
    q.loader = Loader::Forge;
    assert_eq!(loader_setup(&q), None);
    q.loader = Loader::Fabric;
    q.loader_version = None;
    assert_eq!(loader_setup(&q), None);
}

#[test]
fn launch_options_of_instance() {
    let i = inst("abc", ts(0, 0));
    let o = launch_options(&i, None);
    assert_eq!(o.java_path, "java");
    assert_eq!(o.memory_min_mb, 1024);
    assert_eq!(o.memory_max_mb, 4096);
    assert_eq!(o.game_dir, PathArg::Data(i.dir()));
    assert_eq!((o.width, o.height), (854, 480));
    assert!(o.extra_classpath.is_empty());
    assert_eq!(o.override_main_class, None);

    let mut j = inst("abc", ts(0, 0));
    j.java_path = Some("/opt/java/bin/java".into());
    let jar = app_data_dir().join("lib.jar");
    let install = LoaderInstall { main_class: "Knot".into(), downloads: vec![], jar_paths: vec![jar.clone()] };
    let o = launch_options(&j, Some(install));
    assert_eq!(o.java_path, "/opt/java/bin/java");
    assert_eq!(o.extra_classpath, vec![PathArg::Data(jar)]);
    assert_eq!(o.override_main_class, Some("Knot".to_string()));
}
