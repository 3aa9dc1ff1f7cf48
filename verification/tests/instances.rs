use aether_launcher::error::AetherError;
use aether_launcher::instance::commands::{
    apply_patch, create_instance, duplicate, duplicate_instance, epoch_seconds_of, import_instance,
    new_instance, new_instance_id, now, refresh_summary, remove_from_index, set_status,
    validated_name, CreateInput, UpdatePatch,
};
use aether_launcher::instance::store::{index_path, instance_dir, instance_toml, instances_dir};
use aether_launcher::instance::{
    InstallStatus, Installation, Instance, InstanceSettings, InstanceSummary, Loader, Modpack,
};
use aether_launcher::platform::Os;

fn input(name: &str) -> CreateInput {
    CreateInput {
        name: name.to_string(),
        mc_version: "1.20.1".to_string(),
        loader: Loader::Vanilla,
        loader_version: None,
        ram_mb: None,
        icon: Some("grass".to_string()),
        java_path: None,
    }
}

fn sample() -> Instance {
    new_instance(input("  Survival  "), "id1".to_string(), "/data/instances", 100, Os::Linux).ok().unwrap()
}

fn empty_patch() -> UpdatePatch {
    UpdatePatch {
        name: None,
        mc_version: None,
        loader: None,
        loader_version: None,
        ram_mb: None,
        icon: None,
        java_path: None,
        favorite: None,
    }
}

#[test]
fn defaults() {
    assert_eq!(Loader::default(), Loader::Vanilla);
    assert_eq!(InstallStatus::default(), InstallStatus::Created);
    let s = InstanceSettings::default();
    assert!(s.resolution_width.is_none() && s.resolution_height.is_none() && !s.fullscreen);
    let m = Modpack::default();
    assert!(m.source.is_none() && m.project_id.is_none() && m.version_id.is_none());
    let i = Installation::default();
    assert_eq!(i.current_phase, "");
    assert_eq!(f32::from_bits(i.progress_bits), 0.0);
}

#[test]
fn new_instance_fields() {
    let i = sample();
    assert_eq!(i.id, "id1");
    assert_eq!(i.name, "Survival");
    assert_eq!(i.ram_mb, 4096);
    assert_eq!(i.path, "/data/instances/id1");
    assert_eq!(i.created_at, 100);
    assert_eq!(i.status, InstallStatus::Created);
    assert_eq!(i.icon.as_deref(), Some("grass"));
    assert!(!i.favorite && i.last_played.is_none() && i.playtime_secs == 0 && i.java_major.is_none());
    let mut with_ram = input("x");
    with_ram.ram_mb = Some(2048);
    assert_eq!(new_instance(with_ram, "i".to_string(), "/d", 0, Os::Linux).ok().unwrap().ram_mb, 2048);
}

#[test]
fn empty_names_are_refused() {
    match new_instance(input(" \t "), "x".to_string(), "/d", 0, Os::Linux) {
        Err(AetherError::InvalidState(m)) => assert_eq!(m, "el nombre no puede estar vacio"),
        _ => panic!(),
    }
    assert!(create_instance(input(""), "/d", Os::Linux).is_err());
    assert_eq!(validated_name(" a b ").ok().unwrap(), "a b");
}

#[test]
fn fresh_ids_and_time() {
    let id = new_instance_id();
    assert_eq!(id.len(), 32);
    assert!(id.chars().all(|c| c.is_ascii_hexdigit() && !c.is_ascii_uppercase()));
    assert_ne!(new_instance_id(), new_instance_id());
    assert!(now() > 1_600_000_000);
    assert_eq!(epoch_seconds_of(None), 0);
    assert_eq!(epoch_seconds_of(Some(42)), 42);
    assert_eq!(epoch_seconds_of(Some(u64::MAX)), -1);
    let created = create_instance(input("Mine"), "/d", Os::Linux).ok().unwrap();
    assert_eq!(created.path, format!("/d/{}", created.id));
    assert!(created.created_at > 1_600_000_000);
}

#[test]
fn patches() {
    let i = sample();
    let same = apply_patch(sample(), empty_patch()).ok().unwrap();
    assert_eq!(same.name, i.name);
    assert_eq!(same.ram_mb, i.ram_mb);
    let mut p = empty_patch();
    p.name = Some("  Creative ".to_string());
    p.ram_mb = Some(8192);
    p.icon = Some(None);
    p.favorite = Some(true);
    p.loader = Some(Loader::Fabric);
    let u = apply_patch(sample(), p).ok().unwrap();
    assert_eq!(u.name, "Creative");
    assert_eq!(u.ram_mb, 8192);
    assert!(u.icon.is_none());
    assert!(u.favorite);
    assert_eq!(u.loader, Loader::Fabric);
    assert_eq!(u.mc_version, "1.20.1");
    let mut bad = empty_patch();
    bad.name = Some("   ".to_string());
    match apply_patch(sample(), bad) {
        Err(AetherError::InvalidState(m)) => assert_eq!(m, "el nombre no puede estar vacio"),
        _ => panic!(),
    }
}

#[test]
fn duplicates() {
    let mut src = sample();
    src.favorite = true;
    src.playtime_secs = 50;
    src.last_played = Some(7);
    let d = duplicate(&src, "id2".to_string(), "/data/instances", 200, Os::Linux);
    assert_eq!(d.id, "id2");
    assert_eq!(d.name, "Survival (copia)");
    assert_eq!(d.path, "/data/instances/id2");
    assert_eq!(d.created_at, 200);
    assert!(!d.favorite && d.playtime_secs == 0 && d.last_played.is_none());
    assert_eq!(d.mc_version, src.mc_version);
    let fresh = duplicate_instance(&src, "/x", Os::Linux);
    assert_eq!(fresh.id.len(), 32);
    assert_ne!(fresh.id, src.id);
}

#[test]
fn import_is_not_available() {
    match import_instance("/somewhere".to_string()) {
        Err(AetherError::NotImplemented(m)) => assert_eq!(m, "la importacion de instancias llegara en una fase posterior"),
        _ => panic!(),
    }
}

fn summary(id: &str) -> InstanceSummary {
    let mut i = sample();
    i.id = id.to_string();
    InstanceSummary::from(&i)
}

#[test]
fn index_maintenance() {
    let s = summary("a");
    assert_eq!(s.name, "Survival");
    assert_eq!(s.ram_mb, 4096);
    let mut index = vec![summary("a"), summary("b"), summary("a"), summary("c")];
    remove_from_index(&mut index, "a");
    let ids: Vec<&str> = index.iter().map(|s| s.id.as_str()).collect();
    assert_eq!(ids, vec!["b", "c"]);
    set_status(&mut index, "c", InstallStatus::Ready);
    assert_eq!(index[1].status, InstallStatus::Ready);
    assert_eq!(index[0].status, InstallStatus::Created);
    set_status(&mut index, "zzz", InstallStatus::Error);
    assert_eq!(index.len(), 2);
    let mut renamed = sample();
    renamed.id = "b".to_string();
    renamed.name = "New".to_string();
    refresh_summary(&mut index, &renamed);
    assert_eq!(index[0].name, "New");
    assert_eq!(index[1].name, "Survival");
}

#[test]
fn store_paths() {
    assert_eq!(instances_dir("/data", Os::Linux), "/data/instances");
    assert_eq!(index_path("/data", Os::Linux), "/data/instances.json");
    assert_eq!(instance_dir("/data", "x", Os::Linux), "/data/instances/x");
    assert_eq!(instance_toml("/data", "x", Os::Linux), "/data/instances/x/instance.toml");
    assert_eq!(instance_toml("C:\\d", "x", Os::Windows), "C:\\d\\instances\\x\\instance.toml");
}
