use aether_launcher::error::AetherError;
use aether_launcher::install::commands::{begin_install, finish_install, no_active_install};
use aether_launcher::install::vanilla::VanillaInstaller;
use aether_launcher::install::{installer_for, InstallEvent};
use aether_launcher::instance::commands::new_instance;
use aether_launcher::instance::commands::CreateInput;
use aether_launcher::instance::{InstallStatus, Instance, Loader};
use aether_launcher::launch::natives::native_jars;
use aether_launcher::launch::{build_classpath, installed_paths};
use aether_launcher::minecraft::version::{
    Artifact, AssetIndex, AssetIndexRef, AssetObject, ClientDownloads, Library, LibraryDownloads,
    VersionDetail,
};
use aether_launcher::platform::{Os, Platform};

fn inst() -> Instance {
    let input = CreateInput {
        name: "S".to_string(),
        mc_version: "1.20.1".to_string(),
        loader: Loader::Vanilla,
        loader_version: None,
        ram_mb: None,
        icon: None,
        java_path: None,
    };
    new_instance(input, "id".to_string(), "/d/instances", 1, Os::Linux).ok().unwrap()
}

#[test]
fn installer_dispatch() {
    assert!(installer_for(Loader::Vanilla).is_ok());
    for (l, name) in [(Loader::Fabric, "Fabric"), (Loader::Forge, "Forge"), (Loader::NeoForge, "NeoForge")] {
        match installer_for(l) {
            Err(AetherError::NotImplemented(m)) => assert_eq!(m, format!("el instalador de {name} llegara en una fase posterior")),
            _ => panic!(),
        }
    }
}

#[test]
fn install_life_cycle() {
    let mut i = inst();
    i.last_error = Some("old".to_string());
    let started = begin_install(i);
    assert_eq!(started.status, InstallStatus::Installing);
    assert_eq!(started.installation.current_phase, "starting");
    assert_eq!(f32::from_bits(started.installation.progress_bits), 0.0);
    assert!(started.last_error.is_none());

    let (done, ev, answer) = finish_install(begin_install(inst()), Ok(1234), false, 99);
    assert_eq!(done.status, InstallStatus::Ready);
    assert_eq!(done.installed_at, Some(99));
    assert_eq!(done.total_size_bytes, 1234);
    assert_eq!(done.installation.current_phase, "done");
    assert_eq!(f32::from_bits(done.installation.progress_bits), 1.0);
    assert!(matches!(ev, InstallEvent::Done));
    assert!(answer.is_ok());

    let (c, ev, answer) = finish_install(begin_install(inst()), Err(AetherError::InvalidState("cancelado".into())), true, 99);
    assert_eq!(c.status, InstallStatus::Cancelled);
    assert_eq!(c.installation.current_phase, "cancelled");
    assert!(c.installed_at.is_none());
    assert!(matches!(ev, InstallEvent::Cancelled));
    assert!(answer.is_ok());

    let (e, ev, answer) = finish_install(begin_install(inst()), Err(AetherError::Http("timeout".into())), false, 99);
    assert_eq!(e.status, InstallStatus::Error);
    assert_eq!(e.last_error.as_deref(), Some("error HTTP: timeout"));
    assert_eq!(e.installation.current_phase, "error");
    match ev {
        InstallEvent::Failed { message } => assert_eq!(message, "error HTTP: timeout"),
        _ => panic!(),
    }
    match answer {
        Err(AetherError::InvalidState(m)) => assert_eq!(m, "error HTTP: timeout"),
        _ => panic!(),
    }
}

#[test]
fn cancel_without_install() {
    match no_active_install("abc") {
        AetherError::NotFound(m) => assert_eq!(m, "no hay instalacion activa para abc"),
        _ => panic!(),
    }
}

fn art(url: &str, sha1: &str, size: u64, path: Option<&str>) -> Artifact {
    Artifact { url: url.to_string(), sha1: sha1.to_string(), size, path: path.map(|s| s.to_string()) }
}

#[test]
fn vanilla_plan() {
    let natives_lib = Library {
        name: "org.lwjgl:lwjgl:3.3.1".to_string(),
        downloads: Some(LibraryDownloads {
            artifact: Some(art("https://l/lwjgl.jar", "aa", 10, None)),
            classifiers: Some(vec![
                ("natives-windows".to_string(), art("https://l/win.jar", "bb", 20, Some("org/lwjgl/lwjgl-natives-windows.jar"))),
                ("natives-linux".to_string(), art("https://l/linux.jar", "cc", 30, None)),
            ]),
        }),
        rules: vec![],
        natives: Some(vec![("linux".to_string(), "natives-linux".to_string()), ("windows".to_string(), "natives-windows".to_string())]),
    };
    let detail = VersionDetail {
        id: "1.20.1".to_string(),
        asset_index: AssetIndexRef { id: "5".to_string(), url: "u".to_string(), sha1: "s".to_string(), total_size: 0 },
        assets: "5".to_string(),
        downloads: ClientDownloads { client: art("https://c/client.jar", "dd", 40, None) },
        libraries: vec![natives_lib],
        java_version: None,
        main_class: "M".to_string(),
        arguments: None,
        minecraft_arguments: None,
    };
    let assets = AssetIndex {
        objects: vec![("icons/icon.png".to_string(), AssetObject { hash: "bdf48ef6b5d0d23bbb02e17d04865216179f510a".to_string(), size: 5 })],
    };
    let paths = installed_paths("/d", "/d/instances/id", "1.20.1", Os::Linux);
    let p = Platform::from_target("linux", "x86_64");
    let tasks = VanillaInstaller.plan_downloads(&detail, &assets, &paths, &p);
    let dests: Vec<&str> = tasks.iter().map(|t| t.dest.as_str()).collect();
    assert_eq!(
        dests,
        vec![
            "/d/libraries/org/lwjgl/lwjgl/3.3.1/lwjgl-3.3.1.jar",
            "/d/instances/id/minecraft/natives/natives-linux.jar",
            "/d/versions/1.20.1/1.20.1.jar",
            "/d/assets/objects/bd/bdf48ef6b5d0d23bbb02e17d04865216179f510a",
        ]
    );
    assert_eq!(tasks[3].url, "https://resources.download.minecraft.net/bd/bdf48ef6b5d0d23bbb02e17d04865216179f510a");
    assert_eq!(tasks[3].sha1.as_deref(), Some("bdf48ef6b5d0d23bbb02e17d04865216179f510a"));
    assert_eq!(tasks[1].sha1.as_deref(), Some("cc"));
    assert_eq!(tasks[2].size, 40);
    // The classpath names exactly the files planned above.
    let cp = build_classpath(&detail, &paths.libraries_dir, &paths.client_jar, &p);
    assert!(cp.iter().all(|c| dests.contains(&c.as_str())));
    // On Windows the natives jar keeps the leaf of its path.
    let wp = installed_paths("C:\\d", "C:\\i", "1.20.1", Os::Windows);
    let wt = VanillaInstaller.plan_downloads(&detail, &assets, &wp, &Platform::from_target("windows", "x86_64"));
    assert_eq!(wt[1].dest, "C:\\i\\minecraft\\natives\\lwjgl-natives-windows.jar");
    assert_eq!(wt[3].dest, "C:\\d\\assets\\objects\\bd\\bdf48ef6b5d0d23bbb02e17d04865216179f510a");
}

#[test]
fn extractor_finds_the_installed_natives_jar() {
    let lib = Library {
        name: "org.lwjgl.lwjgl:lwjgl-platform:2.9.4".to_string(),
        downloads: Some(LibraryDownloads {
            artifact: None,
            classifiers: Some(vec![("natives-linux".to_string(), art("https://l/n.jar", "ee", 9, Some("org/lwjgl/lwjgl-platform-2.9.4-natives-linux.jar")))]),
        }),
        rules: vec![],
        natives: Some(vec![("linux".to_string(), "natives-linux".to_string())]),
    };
    let detail = VersionDetail {
        id: "1.8.9".to_string(),
        asset_index: AssetIndexRef { id: "1.8".to_string(), url: "u".to_string(), sha1: "s".to_string(), total_size: 0 },
        assets: "1.8".to_string(),
        downloads: ClientDownloads { client: art("https://c/client.jar", "dd", 40, None) },
        libraries: vec![lib],
        java_version: None,
        main_class: "M".to_string(),
        arguments: None,
        minecraft_arguments: None,
    };
    let paths = installed_paths("/d", "/d/instances/id", "1.8.9", Os::Linux);
    let p = Platform::from_target("linux", "x86_64");
    let tasks = VanillaInstaller.plan_downloads(&detail, &AssetIndex { objects: vec![] }, &paths, &p);
    let jars = native_jars(&detail, &paths.natives_dir, &p);
    assert_eq!(jars, vec![tasks[0].dest.clone()]);
    assert_eq!(jars[0], "/d/instances/id/minecraft/natives/lwjgl-platform-2.9.4-natives-linux.jar");
}
