use aether_launcher::error::AetherError;
use aether_launcher::instance::commands::{new_instance, CreateInput};
use aether_launcher::instance::Loader;
use aether_launcher::minecraft::version::{AssetIndexRef, Artifact, ClientDownloads, JavaVersion, VersionDetail};
use aether_launcher::platform::Os;
use aether_launcher::runtime::commands::resolve_runtime_for;
use aether_launcher::runtime::detect::{find_managed_runtime, required_java_of};
use aether_launcher::runtime::install::{plan_runtime_files, provision_error, runtime_missing};
use aether_launcher::runtime::manifest::{
    component_candidates, mojang_platform_key, select_release, Download, FileDownloads, FileEntry,
    JavaRuntimeIndex, ManifestRef, RuntimeManifest, RuntimeRelease, RuntimeVersion,
};
use aether_launcher::runtime::paths::{java_bin_relative, java_candidates, java_executable_in, runtime_home_for, runtimes_dir};
use aether_launcher::runtime::{RequiredJava, RequiredJavaSource};

fn detail(java: Option<u32>) -> VersionDetail {
    VersionDetail {
        id: "v".to_string(),
        asset_index: AssetIndexRef { id: "1".to_string(), url: "u".to_string(), sha1: "s".to_string(), total_size: 0 },
        assets: "1".to_string(),
        downloads: ClientDownloads { client: Artifact { url: "u".to_string(), sha1: "s".to_string(), size: 0, path: None } },
        libraries: vec![],
        java_version: java.map(|m| JavaVersion { major_version: m }),
        main_class: "M".to_string(),
        arguments: None,
        minecraft_arguments: None,
    }
}

#[test]
fn required_java() {
    let r = required_java_of(&detail(Some(21)));
    assert_eq!(r.major, 21);
    assert_eq!(r.source, RequiredJavaSource::VersionJson);
    let f = required_java_of(&detail(None));
    assert_eq!(f.major, 8);
    assert_eq!(f.source, RequiredJavaSource::Fallback);
}

#[test]
fn runtime_layout() {
    assert_eq!(runtimes_dir("/data", Os::Linux), "/data/runtimes");
    assert_eq!(runtime_home_for("/data/runtimes", 17, Os::Linux), "/data/runtimes/java-17");
    assert_eq!(runtime_home_for("C:\\r", 8, Os::Windows), "C:\\r\\java-8");
    assert_eq!(java_bin_relative(Os::Windows), "bin\\java.exe");
    assert_eq!(java_bin_relative(Os::Osx), "jre.bundle/Contents/Home/bin/java");
    assert_eq!(java_bin_relative(Os::Linux), "bin/java");
    let (layout, flat) = java_candidates("/h", Os::Osx);
    assert_eq!(layout, "/h/jre.bundle/Contents/Home/bin/java");
    assert_eq!(flat, "/h/bin/java");
    assert_eq!(java_executable_in("/h", Os::Osx, true, true).as_deref(), Some("/h/jre.bundle/Contents/Home/bin/java"));
    assert_eq!(java_executable_in("/h", Os::Osx, false, true).as_deref(), Some("/h/bin/java"));
    assert_eq!(java_executable_in("/h", Os::Osx, false, false), None);
}

#[test]
fn managed_runtime_discovery() {
    assert!(find_managed_runtime(17, "/h", false, Some("/h/bin/java".to_string())).is_none());
    assert!(find_managed_runtime(17, "/h", true, None).is_none());
    let m = find_managed_runtime(17, "/h", true, Some("/h/bin/java".to_string())).unwrap();
    assert_eq!(m.major, 17);
    assert_eq!(m.java_path, "/h/bin/java");
    assert_eq!(m.home, "/h");
}

#[test]
fn platform_keys() {
    assert_eq!(mojang_platform_key(Os::Windows, "x64").ok(), Some("windows-x64"));
    assert_eq!(mojang_platform_key(Os::Windows, "arm64").ok(), Some("windows-arm64"));
    assert_eq!(mojang_platform_key(Os::Windows, "x86").ok(), Some("windows-x86"));
    assert_eq!(mojang_platform_key(Os::Linux, "x64").ok(), Some("linux"));
    assert_eq!(mojang_platform_key(Os::Linux, "x86").ok(), Some("linux-i386"));
    assert_eq!(mojang_platform_key(Os::Osx, "x64").ok(), Some("mac-os"));
    assert_eq!(mojang_platform_key(Os::Osx, "arm64").ok(), Some("mac-os-arm64"));
    match mojang_platform_key(Os::Linux, "arm64") {
        Err(AetherError::NotFound(m)) => assert_eq!(m, "no hay runtime de Java para linux/arm64"),
        _ => panic!(),
    }
}

#[test]
fn candidates() {
    assert_eq!(component_candidates(8), vec!["jre-legacy"]);
    assert_eq!(component_candidates(16), vec!["java-runtime-alpha"]);
    assert_eq!(component_candidates(17), vec!["java-runtime-gamma", "java-runtime-beta", "java-runtime-gamma-snapshot"]);
    assert_eq!(component_candidates(21), vec!["java-runtime-delta"]);
    assert!(component_candidates(11).is_empty());
}

fn release(name: &str) -> RuntimeRelease {
    RuntimeRelease {
        manifest: ManifestRef { sha1: "s".to_string(), size: 1, url: format!("https://m/{name}.json") },
        version: RuntimeVersion { name: name.to_string(), released: "2024".to_string() },
    }
}

fn index() -> JavaRuntimeIndex {
    vec![(
        "linux".to_string(),
        vec![
            ("java-runtime-beta".to_string(), vec![release("17.0.1")]),
            ("java-runtime-gamma".to_string(), vec![]),
            ("jre-legacy".to_string(), vec![release("8u51")]),
            ("java-runtime-epsilon".to_string(), vec![release("25.0.1")]),
        ],
    )]
}

#[test]
fn release_selection() {
    let idx = index();
    assert_eq!(select_release(&idx, "linux", 17).ok().unwrap().version.name, "17.0.1");
    assert_eq!(select_release(&idx, "linux", 8).ok().unwrap().version.name, "8u51");
    assert_eq!(select_release(&idx, "linux", 25).ok().unwrap().version.name, "25.0.1");
    match select_release(&idx, "linux", 21) {
        Err(AetherError::NotFound(m)) => assert_eq!(m, "no hay runtime de Java 21 para linux"),
        _ => panic!(),
    }
    match select_release(&idx, "mac-os", 17) {
        Err(AetherError::NotFound(m)) => assert_eq!(m, "plataforma mac-os ausente en el indice"),
        _ => panic!(),
    }
}

fn dl(url: &str) -> Download {
    Download { sha1: "ab".to_string(), size: 3, url: url.to_string() }
}

#[test]
fn runtime_file_plan() {
    let man = RuntimeManifest {
        files: vec![
            ("bin".to_string(), FileEntry::Directory),
            ("bin/java".to_string(), FileEntry::File { executable: true, downloads: FileDownloads { raw: dl("https://r/java"), lzma: None } }),
            ("lib/a.so".to_string(), FileEntry::File { executable: false, downloads: FileDownloads { raw: dl("https://r/a"), lzma: Some(dl("https://r/a.lzma")) } }),
            ("lib/link.so".to_string(), FileEntry::Link { target: "a.so".to_string() }),
        ],
    };
    let plan = plan_runtime_files("/rt/java-17", &man, Os::Linux);
    assert_eq!(plan.directories, vec!["/rt/java-17/bin"]);
    assert_eq!(plan.executables, vec!["/rt/java-17/bin/java"]);
    assert_eq!(plan.links, vec![("/rt/java-17/lib/link.so".to_string(), "a.so".to_string())]);
    assert_eq!(plan.tasks.len(), 2);
    assert_eq!(plan.tasks[1].url, "https://r/a");
    assert_eq!(plan.tasks[1].dest, "/rt/java-17/lib/a.so");
    assert_eq!(plan.tasks[1].sha1.as_deref(), Some("ab"));
    match runtime_missing(17) {
        AetherError::InvalidState(m) => assert_eq!(m, "el runtime java-17 se descargo pero no se encontro el ejecutable"),
        _ => panic!(),
    }
}

#[test]
fn runtime_resolution() {
    let input = CreateInput {
        name: "S".to_string(),
        mc_version: "1.20.1".to_string(),
        loader: Loader::Vanilla,
        loader_version: None,
        ram_mb: None,
        icon: None,
        java_path: None,
    };
    let i = new_instance(input, "id".to_string(), "/d", 1, Os::Linux).ok().unwrap();
    let req = RequiredJava { major: 17, source: RequiredJavaSource::VersionJson };
    let (i, changed, res) = resolve_runtime_for(i, req, None);
    assert!(changed);
    assert_eq!(i.java_major, Some(17));
    assert!(!res.ready);
    let m = find_managed_runtime(17, "/h", true, Some("/h/bin/java".to_string()));
    let (_, changed, res) = resolve_runtime_for(i, req, m);
    assert!(!changed);
    assert!(res.ready);
    assert_eq!(res.required.major, 17);
}

#[test]
fn provision_error_rewords_a_missing_runtime() {
    match provision_error(21, AetherError::NotFound("no hay runtime".to_string())) {
        AetherError::InvalidState(m) => assert_eq!(
            m,
            "no hay un runtime de Java 21 compatible con esta plataforma: no hay runtime"
        ),
        other => panic!("unexpected {other:?}"),
    }
    match provision_error(8, AetherError::Http("503".to_string())) {
        AetherError::Http(m) => assert_eq!(m, "503"),
        other => panic!("unexpected {other:?}"),
    }
}
