use aether_launcher::error::AetherError;
use aether_launcher::minecraft::manifest::{version_options, Latest, VersionEntry, VersionManifest};
use aether_launcher::minecraft::version::{rules_allow, Library, OsRule, Rule};
use aether_launcher::platform::Platform;

fn rule(action: &str, os: Option<&str>, arch: Option<&str>, features: Option<Vec<(&str, bool)>>) -> Rule {
    Rule {
        action: action.to_string(),
        os: if os.is_none() && arch.is_none() {
            None
        } else {
            Some(OsRule { name: os.map(|s| s.to_string()), arch: arch.map(|s| s.to_string()) })
        },
        features: features.map(|f| f.into_iter().map(|(k, v)| (k.to_string(), v)).collect()),
    }
}

fn lib(rules: Vec<Rule>, natives: Option<Vec<(&str, &str)>>) -> Library {
    Library {
        name: "org.lwjgl:lwjgl:3.3.1".to_string(),
        downloads: None,
        rules,
        natives: natives.map(|n| n.into_iter().map(|(a, b)| (a.to_string(), b.to_string())).collect()),
    }
}

#[test]
fn no_rules_allows() {
    let p = Platform::from_target("linux", "x86_64");
    assert!(rules_allow(&vec![], &p));
    assert!(lib(vec![], None).allowed(&p));
}

#[test]
fn last_matching_rule_decides() {
    let rules = vec![rule("allow", None, None, None), rule("disallow", Some("osx"), None, None)];
    assert!(rules_allow(&rules, &Platform::from_target("linux", "x86_64")));
    assert!(!rules_allow(&rules, &Platform::from_target("macos", "aarch64")));
    let l = lib(vec![rule("allow", None, None, None), rule("disallow", Some("osx"), None, None)], None);
    assert!(l.allowed(&Platform::from_target("windows", "x86_64")));
    assert!(!l.allowed(&Platform::from_target("macos", "x86_64")));
}

#[test]
fn no_matching_rule_disallows() {
    let rules = vec![rule("allow", Some("windows"), None, None)];
    assert!(!rules_allow(&rules, &Platform::from_target("linux", "x86_64")));
    assert!(rules_allow(&rules, &Platform::from_target("windows", "x86_64")));
    assert!(!rules_allow(&vec![rule("disallow", None, None, None)], &Platform::from_target("linux", "x86")));
}

#[test]
fn arch_and_features() {
    let rules = vec![rule("allow", None, Some("x86"), None)];
    assert!(rules_allow(&rules, &Platform::from_target("linux", "x86")));
    assert!(!rules_allow(&rules, &Platform::from_target("linux", "x86_64")));
    // The library check looks at the OS name only.
    assert!(lib(vec![rule("allow", None, Some("x86"), None)], None).allowed(&Platform::from_target("linux", "x86_64")));
    let demo = vec![rule("allow", None, None, Some(vec![("is_demo_user", true)]))];
    assert!(!rules_allow(&demo, &Platform::from_target("linux", "x86_64")));
    let off = vec![rule("allow", None, None, Some(vec![("has_custom_resolution", false)]))];
    assert!(rules_allow(&off, &Platform::from_target("linux", "x86_64")));
}

#[test]
fn native_classifier_for_os() {
    let l = lib(vec![], Some(vec![("linux", "natives-linux"), ("windows", "natives-windows")]));
    assert_eq!(l.native_classifier(&Platform::from_target("windows", "x86_64")).as_deref(), Some("natives-windows"));
    assert_eq!(l.native_classifier(&Platform::from_target("macos", "x86_64")), None);
    assert_eq!(lib(vec![], None).native_classifier(&Platform::from_target("linux", "x86_64")), None);
}

fn entry(id: &str) -> VersionEntry {
    VersionEntry {
        id: id.to_string(),
        kind: "release".to_string(),
        url: format!("https://example.invalid/{id}.json"),
        release_time: "2024-01-01T00:00:00+00:00".to_string(),
        sha1: "00".to_string(),
    }
}

#[test]
fn manifest_find() {
    let m = VersionManifest {
        latest: Latest { release: "1.21".to_string(), snapshot: "24w01a".to_string() },
        versions: vec![entry("1.21"), entry("1.20.1"), entry("1.21")],
    };
    let e = m.find("1.20.1").ok().unwrap();
    assert_eq!(e.url, "https://example.invalid/1.20.1.json");
    match m.find("1.99") {
        Err(AetherError::NotFound(msg)) => assert_eq!(msg, "version 1.99"),
        _ => panic!("expected NotFound"),
    }
    let opts = version_options(m);
    assert_eq!(opts.len(), 3);
    assert_eq!(opts[1].id, "1.20.1");
    assert_eq!(opts[1].kind, "release");
    assert_eq!(opts[1].release_time, "2024-01-01T00:00:00+00:00");
}

#[test]
fn both_rule_checks_agree_without_arch_or_features() {
    let sets = vec![
        vec![rule("allow", None, None, None)],
        vec![rule("allow", None, None, None), rule("disallow", Some("osx"), None, None)],
        vec![rule("allow", Some("windows"), None, None)],
        vec![rule("disallow", Some("linux"), None, None), rule("allow", Some("linux"), None, None)],
    ];
    for os in ["windows", "macos", "linux"] {
        let p = Platform::from_target(os, "x86_64");
        for rules in &sets {
            let l = lib(rules.iter().map(|r| rule(&r.action, r.os.as_ref().and_then(|o| o.name.as_deref()), None, None)).collect(), None);
            assert_eq!(l.allowed(&p), rules_allow(rules, &p));
        }
    }
}
