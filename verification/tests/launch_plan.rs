use aether_launcher::download::file_sha1;
use aether_launcher::error::AetherError;
use aether_launcher::install::vanilla::maven_to_path;
use aether_launcher::launch::natives::{native_entry_leaf, native_extension, native_jar_filename, native_jars};
use aether_launcher::launch::process::{spawn_failure, split_command};
use aether_launcher::launch::{
    build_classpath, classpath_separator, collect_args, detect_installation, installed_paths,
    java_bin_name, java_home_candidate, plan_launch, resolve_java, substitute, verify_client_jar,
    version_json_path, InstalledPaths, LaunchPlan,
};
use aether_launcher::minecraft::version::{
    ArgElement, ArgValue, Artifact, AssetIndexRef, ClientDownloads, Library, LibraryDownloads, OsRule, Rule, VersionDetail,
};
use aether_launcher::platform::{Os, Platform};

fn art(url: &str, path: Option<&str>) -> Artifact {
    Artifact { url: url.to_string(), sha1: "11".to_string(), size: 7, path: path.map(|s| s.to_string()) }
}

fn only_on(os: &str) -> Vec<Rule> {
    vec![Rule {
        action: "allow".to_string(),
        os: Some(OsRule { name: Some(os.to_string()), arch: None }),
        features: None,
    }]
}

fn library(name: &str, artifact: Option<Artifact>, rules: Vec<Rule>) -> Library {
    Library {
        name: name.to_string(),
        downloads: Some(LibraryDownloads { artifact, classifiers: None }),
        rules,
        natives: None,
    }
}

fn detail(libraries: Vec<Library>, arguments: Option<aether_launcher::minecraft::version::Arguments>, legacy: Option<&str>) -> VersionDetail {
    VersionDetail {
        id: "1.20.1".to_string(),
        asset_index: AssetIndexRef { id: "5".to_string(), url: "u".to_string(), sha1: "s".to_string(), total_size: 0 },
        assets: "5".to_string(),
        downloads: ClientDownloads { client: art("https://example.invalid/client.jar", None) },
        libraries,
        java_version: None,
        main_class: "net.minecraft.client.main.Main".to_string(),
        arguments,
        minecraft_arguments: legacy.map(|s| s.to_string()),
    }
}

fn linux_paths() -> InstalledPaths {
    installed_paths("/data", "/data/instances/abc", "1.20.1", Os::Linux)
}

#[test]
fn maven_paths() {
    assert_eq!(maven_to_path("org.lwjgl:lwjgl:3.3.1"), "org/lwjgl/lwjgl/3.3.1/lwjgl-3.3.1.jar");
    assert_eq!(maven_to_path("com.mojang:brigadier:1.0.18:sources"), "com/mojang/brigadier/1.0.18/brigadier-1.0.18.jar");
    assert_eq!(maven_to_path("a:b"), "a/b");
    assert_eq!(maven_to_path("plain"), "plain");
}

#[test]
fn separators_and_binaries() {
    assert_eq!(classpath_separator(Os::Windows), ';');
    assert_eq!(classpath_separator(Os::Linux), ':');
    assert_eq!(classpath_separator(Os::Osx), ':');
    assert_eq!(java_bin_name(Os::Windows), "java.exe");
    assert_eq!(java_bin_name(Os::Osx), "java");
}

#[test]
fn installation_layout() {
    let p = linux_paths();
    assert_eq!(p.data_dir, "/data");
    assert_eq!(p.libraries_dir, "/data/libraries");
    assert_eq!(p.assets_dir, "/data/assets");
    assert_eq!(p.game_dir, "/data/instances/abc/minecraft");
    assert_eq!(p.natives_dir, "/data/instances/abc/minecraft/natives");
    assert_eq!(p.version_json, "/data/versions/1.20.1/1.20.1.json");
    assert_eq!(p.client_jar, "/data/versions/1.20.1/1.20.1.jar");
    assert_eq!(version_json_path("/data", "1.20.1", Os::Linux), p.version_json);
    let w = installed_paths("C:\\d", "C:\\d\\i", "1.8.9", Os::Windows);
    assert_eq!(w.client_jar, "C:\\d\\versions\\1.8.9\\1.8.9.jar");
}

#[test]
fn detection_errors() {
    match detect_installation(linux_paths(), "1.20.1", false, true) {
        Err(AetherError::NotFound(m)) => assert_eq!(m, "version.json de 1.20.1 (la instancia no esta instalada)"),
        _ => panic!(),
    }
    match detect_installation(linux_paths(), "1.20.1", true, false) {
        Err(AetherError::NotFound(m)) => assert_eq!(m, "client.jar de 1.20.1"),
        _ => panic!(),
    }
    assert_eq!(detect_installation(linux_paths(), "1.20.1", true, true).ok().unwrap().client_jar, "/data/versions/1.20.1/1.20.1.jar");
}

#[test]
fn client_jar_check() {
    assert!(verify_client_jar("/c.jar", b"abc", &file_sha1(b"abc")).is_ok());
    match verify_client_jar("/c.jar", b"abc", "00") {
        Err(AetherError::HashMismatch { path, expected, actual }) => {
            assert_eq!(path, "/c.jar");
            assert_eq!(expected, "00");
            assert_eq!(actual, "a9993e364706816aba3e25717850c26c9cd0d89d");
        }
        _ => panic!(),
    }
}

#[test]
fn classpath_respects_rules() {
    let d = detail(
        vec![
            library("org.lwjgl:lwjgl:3.3.1", Some(art("u1", None)), vec![]),
            library("x:win:1", Some(art("u2", Some("x/win.jar"))), only_on("windows")),
            library("x:nothing:1", None, vec![]),
            library("com.google:guava:31", Some(art("u3", Some("com/google/guava.jar"))), only_on("linux")),
        ],
        None,
        None,
    );
    let cp = build_classpath(&d, "/data/libraries", "/data/versions/v/v.jar", &Platform::from_target("linux", "x86_64"));
    assert_eq!(
        cp,
        vec![
            "/data/libraries/org/lwjgl/lwjgl/3.3.1/lwjgl-3.3.1.jar",
            "/data/libraries/com/google/guava.jar",
            "/data/versions/v/v.jar",
        ]
    );
}

#[test]
fn java_resolution_order() {
    let configured = Some("/opt/java/bin/java".to_string());
    assert_eq!(resolve_java(&configured, true, Some("/jh"), true, Os::Linux), "/opt/java/bin/java");
    assert_eq!(resolve_java(&configured, false, Some("/jh"), true, Os::Linux), "/jh/bin/java");
    assert_eq!(resolve_java(&None, false, Some("/jh"), false, Os::Linux), "java");
    assert_eq!(resolve_java(&None, false, Some(""), true, Os::Windows), "java.exe");
    assert_eq!(resolve_java(&None, false, None, true, Os::Windows), "java.exe");
    assert_eq!(java_home_candidate("C:\\jdk", Os::Windows), "C:\\jdk\\bin\\java.exe");
}

fn vars(pairs: &[(&str, &str)]) -> Vec<(String, String)> {
    pairs.iter().map(|(k, v)| (k.to_string(), v.to_string())).collect()
}

#[test]
fn substitution() {
    let v = vars(&[("a", "1"), ("b", "${a}")]);
    assert_eq!(substitute("x=${a} y=${b} z=${c}", &v), "x=1 y=${a} z=${c}");
    assert_eq!(substitute("no placeholders", &v), "no placeholders");
    assert_eq!(substitute("${a}${a}", &v), "11");
}

#[test]
fn conditional_arguments() {
    let v = vars(&[("natives_directory", "/n")]);
    let els = vec![
        ArgElement::Simple("-Djava.library.path=${natives_directory}".to_string()),
        ArgElement::Conditional { rules: only_on("osx"), value: ArgValue::Single("-XstartOnFirstThread".to_string()) },
        ArgElement::Conditional {
            rules: only_on("linux"),
            value: ArgValue::Many(vec!["-Xa".to_string(), "-Xb=${natives_directory}".to_string()]),
        },
    ];
    let out = collect_args(&els, &v, &Platform::from_target("linux", "x86_64"));
    assert_eq!(out, vec!["-Djava.library.path=/n", "-Xa", "-Xb=/n"]);
    let mac = collect_args(&els, &v, &Platform::from_target("macos", "aarch64"));
    assert_eq!(mac, vec!["-Djava.library.path=/n", "-XstartOnFirstThread"]);
}

#[test]
fn legacy_launch_plan() {
    let d = detail(
        vec![library("org.lwjgl:lwjgl:2.9.4", Some(art("u", None)), vec![])],
        None,
        Some("--username ${auth_player_name} --version ${version_name}  --gameDir ${game_directory} --uuid ${auth_uuid}"),
    );
    let p = linux_paths();
    let plan: LaunchPlan = plan_launch("1.20.1", &p, &d, "/usr/bin/java".to_string(), "0.1.0", &Platform::from_target("linux", "x86_64"));
    let cp = "/data/libraries/org/lwjgl/lwjgl/2.9.4/lwjgl-2.9.4.jar:/data/versions/1.20.1/1.20.1.jar";
    assert_eq!(plan.jvm_args, vec!["-Djava.library.path=/data/instances/abc/minecraft/natives".to_string(), "-cp".to_string(), cp.to_string()]);
    assert_eq!(
        plan.game_args,
        vec!["--username", "Player", "--version", "1.20.1", "--gameDir", "/data/instances/abc/minecraft", "--uuid", "00000000000000000000000000000000"]
    );
    assert_eq!(plan.command[0], "/usr/bin/java");
    assert_eq!(plan.command[3], cp);
    assert_eq!(plan.command[4], "net.minecraft.client.main.Main");
    assert_eq!(plan.command.len(), 1 + 3 + 1 + 8);
    assert_eq!(plan.classpath.len(), 2);
    assert_eq!(plan.game_dir, "/data/instances/abc/minecraft");
    assert_eq!(plan.main_class, "net.minecraft.client.main.Main");
    assert_eq!(plan.java, "/usr/bin/java");
}

#[test]
fn modern_launch_plan() {
    let arguments = aether_launcher::minecraft::version::Arguments {
        jvm: vec![
            ArgElement::Simple("-cp".to_string()),
            ArgElement::Simple("${classpath}".to_string()),
            ArgElement::Simple("-Dminecraft.launcher.brand=${launcher_name}".to_string()),
            ArgElement::Simple("-Dminecraft.launcher.version=${launcher_version}".to_string()),
        ],
        game: vec![
            ArgElement::Simple("--assetIndex".to_string()),
            ArgElement::Simple("${assets_index_name}".to_string()),
            ArgElement::Simple("--userType".to_string()),
            ArgElement::Simple("${user_type}".to_string()),
            ArgElement::Simple("--sep".to_string()),
            ArgElement::Simple("${classpath_separator}".to_string()),
        ],
    };
    let d = detail(vec![], Some(arguments), None);
    let p = installed_paths("C:\\d", "C:\\i", "1.21", Os::Windows);
    let plan = plan_launch("1.21", &p, &d, "java.exe".to_string(), "9.9.9", &Platform::from_target("windows", "x86_64"));
    assert_eq!(plan.jvm_args, vec!["-cp", "C:\\d\\versions\\1.21\\1.21.jar", "-Dminecraft.launcher.brand=AetherLauncher", "-Dminecraft.launcher.version=9.9.9"]);
    assert_eq!(plan.game_args, vec!["--assetIndex", "5", "--userType", "msa", "--sep", ";"]);
    assert_eq!(plan.command.len(), 1 + 4 + 1 + 6);
}

#[test]
fn argv_split_and_spawn_errors() {
    let p = linux_paths();
    let d = detail(vec![], None, None);
    let plan = plan_launch("1.20.1", &p, &d, "java".to_string(), "0", &Platform::from_target("linux", "x86_64"));
    let (program, args) = split_command(&plan).ok().unwrap();
    assert_eq!(program, "java");
    assert_eq!(args.len(), plan.command.len() - 1);
    assert_eq!(args[args.len() - 1], "net.minecraft.client.main.Main");
    let empty = LaunchPlan { command: vec![], ..plan };
    match split_command(&empty) {
        Err(AetherError::InvalidState(m)) => assert_eq!(m, "LaunchPlan sin comando"),
        _ => panic!(),
    }
    match spawn_failure("/j/java", true, "x") {
        AetherError::NotFound(m) => assert_eq!(m, "no se encontro el ejecutable de Java en '/j/java'"),
        _ => panic!(),
    }
    match spawn_failure("/j/java", false, "permission denied") {
        AetherError::InvalidState(m) => assert_eq!(m, "no se pudo iniciar Minecraft: permission denied"),
        _ => panic!(),
    }
}

#[test]
fn natives_selection() {
    assert_eq!(native_extension(Os::Windows), ".dll");
    assert_eq!(native_extension(Os::Osx), ".dylib");
    assert_eq!(native_extension(Os::Linux), ".so");
    assert_eq!(native_jar_filename("natives-linux", &None, Os::Linux), "natives-linux.jar");
    assert_eq!(native_jar_filename("natives-linux", &Some("org/x/y-natives-linux.jar".to_string()), Os::Linux), "y-natives-linux.jar");
    assert_eq!(native_jar_filename("natives-linux", &Some("..".to_string()), Os::Linux), "natives-linux.jar");
    assert_eq!(native_entry_leaf("linux/x64/liblwjgl.so", false, Os::Linux).as_deref(), Some("liblwjgl.so"));
    assert_eq!(native_entry_leaf("LWJGL.DLL", false, Os::Windows).as_deref(), Some("LWJGL.DLL"));
    assert_eq!(native_entry_leaf("META-INF/x.so", false, Os::Linux), None);
    assert_eq!(native_entry_leaf("dir.so", true, Os::Linux), None);
    assert_eq!(native_entry_leaf("lib.dylib", false, Os::Linux), None);
    let mut classified = library("org.lwjgl:lwjgl-platform:2.9.4", None, vec![]);
    classified.natives = Some(vec![("linux".to_string(), "natives-linux".to_string())]);
    classified.downloads = Some(LibraryDownloads {
        artifact: None,
        classifiers: Some(vec![("natives-linux".to_string(), art("u", Some("org/lwjgl/lwjgl-platform-natives-linux.jar")))]),
    });
    let plain = library("a:b:1", Some(art("u", None)), vec![]);
    let d = detail(vec![plain, classified], None, None);
    let jars = native_jars(&d, "/n", &Platform::from_target("linux", "x86_64"));
    assert_eq!(jars, vec!["/n/lwjgl-platform-natives-linux.jar"]);
    assert!(native_jars(&d, "/n", &Platform::from_target("windows", "x86_64")).is_empty());
}
