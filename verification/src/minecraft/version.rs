//! The detailed JSON of one version: libraries (with per-OS rules), assets,
//! client jar, natives and the recommended Java.

use vstd::prelude::*;
use crate::assoc::{assoc_get, find_key, keys_distinct};
use crate::platform::{os_from_target, os_name, os_of_target, Os, Platform};
use crate::text::str_eq;

verus! {

pub struct VersionDetail {
    pub id: String,
    pub asset_index: AssetIndexRef,
    pub assets: String,
    pub downloads: ClientDownloads,
    pub libraries: Vec<Library>,
    pub java_version: Option<JavaVersion>,
    pub main_class: String,
    /// Modern form (1.13 and later); absent in older versions.
    pub arguments: Option<Arguments>,
    /// Legacy form (before 1.13): one plain string of game arguments.
    pub minecraft_arguments: Option<String>,
}

pub struct JavaVersion {
    pub major_version: u32,
}

pub struct AssetIndexRef {
    pub id: String,
    pub url: String,
    pub sha1: String,
    pub total_size: u64,
}

pub struct ClientDownloads {
    pub client: Artifact,
}

pub struct Artifact {
    pub url: String,
    pub sha1: String,
    pub size: u64,
    pub path: Option<String>,
}

pub struct Library {
    pub name: String,
    pub downloads: Option<LibraryDownloads>,
    pub rules: Vec<Rule>,
    /// OS name to native classifier (e.g. "windows" to "natives-windows").
    pub natives: Option<Vec<(String, String)>>,
}

pub struct LibraryDownloads {
    pub artifact: Option<Artifact>,
    /// Classifier to artifact.
    pub classifiers: Option<Vec<(String, Artifact)>>,
}

pub struct Rule {
    pub action: String,
    pub os: Option<OsRule>,
    /// Feature name to the value the rule expects.
    pub features: Option<Vec<(String, bool)>>,
}

pub struct OsRule {
    pub name: Option<String>,
    pub arch: Option<String>,
}

/// One object of the asset index.
pub struct AssetObject {
    pub hash: String,
    pub size: u64,
}

pub struct AssetIndex {
    /// Asset name to object.
    pub objects: Vec<(String, AssetObject)>,
}

impl AssetIndex {
    /// The index's invariant: no asset name occurs twice.
    pub open spec fn wf(&self) -> bool {
        keys_distinct(self.objects@)
    }
}

impl Library {
    /// The library's invariant: no operating system has two natives
    /// classifiers, no classifier two artifacts, and its rules keep theirs.
    pub open spec fn wf(&self) -> bool {
        &&& self.natives matches Some(n) ==> keys_distinct(n@)
        &&& self.downloads matches Some(d) ==> (d.classifiers matches Some(c) ==> keys_distinct(c@))
        &&& rules_wf(self.rules@)
    }
}

impl Rule {
    /// The rule's invariant: no feature is named twice.
    pub open spec fn wf(&self) -> bool {
        self.features matches Some(f) ==> keys_distinct(f@)
    }
}

/// Every rule of `rules` keeps its invariant.
pub open spec fn rules_wf(rules: Seq<Rule>) -> bool {
    forall|k: int| 0 <= k < rules.len() ==> (#[trigger] rules[k]).wf()
}

/// The rules of every conditional argument keep their invariant.
pub open spec fn args_wf(elements: Seq<ArgElement>) -> bool {
    forall|k: int|
        0 <= k < elements.len() ==> (#[trigger] elements[k] matches ArgElement::Conditional {
            rules,
            ..
        } ==> rules_wf(rules@))
}

impl VersionDetail {
    /// The version's invariant: its libraries and argument rules keep
    /// theirs, so each JSON object in it has unique keys.
    pub open spec fn wf(&self) -> bool {
        &&& forall|k: int| 0 <= k < self.libraries@.len() ==> (#[trigger] self.libraries@[k]).wf()
        &&& self.arguments matches Some(a) ==> (args_wf(a.jvm@) && args_wf(a.game@))
    }
}

/// Summary of a version for the version picker.
pub struct VersionOption {
    pub id: String,
    pub kind: String,
    pub release_time: String,
}

/// The `arguments` block of a modern version JSON.
pub struct Arguments {
    pub jvm: Vec<ArgElement>,
    pub game: Vec<ArgElement>,
}

/// One argument: a plain string or a conditional one (rules and value).
pub enum ArgElement {
    Simple(String),
    Conditional { rules: Vec<Rule>, value: ArgValue },
}

/// The value of a conditional argument: one string or several.
pub enum ArgValue {
    Single(String),
    Many(Vec<String>),
}

/// Mojang's name of the operating system of a Rust `target_os` name
/// (the caller passes `std::env::consts::OS` for the running machine).
pub fn current_os(target_os: &str) -> (r: &'static str)
    ensures
        r@ == os_name(os_of_target(target_os@)),
{
    os_from_target(target_os).name()
}

/// The rule's action allows.
pub open spec fn is_allow(rule: Rule) -> bool {
    rule.action@ == "allow"@
}

/// A library rule applies to `os` unless it names another operating system.
pub open spec fn library_rule_applies(rule: Rule, os: Os) -> bool {
    match rule.os {
        Some(o) => match o.name {
            Some(n) => n@ == os_name(os),
            None => true,
        },
        None => true,
    }
}

/// The action of the last library rule that applies; disallowed when none does.
pub open spec fn library_verdict(rules: Seq<Rule>, os: Os) -> bool
    decreases rules.len(),
{
    if rules.len() == 0 {
        false
    } else if library_rule_applies(rules.last(), os) {
        is_allow(rules.last())
    } else {
        library_verdict(rules.drop_last(), os)
    }
}

/// A library without rules is allowed; otherwise the last rule that applies
/// decides.
pub open spec fn library_allowed(lib: Library, os: Os) -> bool {
    lib.rules@.len() == 0 || library_verdict(lib.rules@, os)
}

/// Some feature is expected to be on.
pub open spec fn expects_feature(features: Seq<(String, bool)>) -> bool {
    exists|j: int| 0 <= j < features.len() && (#[trigger] features[j]).1
}

/// A rule matches the platform when its OS name and architecture (if given)
/// are the platform's and it expects no feature to be on (the launcher turns
/// none on).
pub open spec fn rule_matches_spec(rule: Rule, p: Platform) -> bool {
    &&& match rule.os {
        Some(o) => {
            &&& match o.name {
                Some(n) => n@ == os_name(p.os),
                None => true,
            }
            &&& match o.arch {
                Some(a) => a@ == p.arch@,
                None => true,
            }
        },
        None => true,
    }
    &&& match rule.features {
        Some(f) => !expects_feature(f@),
        None => true,
    }
}

/// The action of the last rule that matches; disallowed when none does.
pub open spec fn rules_verdict(rules: Seq<Rule>, p: Platform) -> bool
    decreases rules.len(),
{
    if rules.len() == 0 {
        false
    } else if rule_matches_spec(rules.last(), p) {
        is_allow(rules.last())
    } else {
        rules_verdict(rules.drop_last(), p)
    }
}

/// No rules allow; otherwise the last matching rule decides.
pub open spec fn rules_allow_spec(rules: Seq<Rule>, p: Platform) -> bool {
    rules.len() == 0 || rules_verdict(rules, p)
}

impl Library {
    /// Evaluates the allow/disallow rules for the operating system of `p`
    /// (architecture and features are not looked at here).
    pub fn allowed(&self, p: &Platform) -> (r: bool)
        ensures
            r == library_allowed(*self, p.os),
    {
        if self.rules.len() == 0 {
            return true;
        }
        let os = p.os.name();
        let mut allow = false;
        let mut i: usize = 0;
        while i < self.rules.len()
            invariant
                i <= self.rules@.len(),
                os@ == os_name(p.os),
                allow == library_verdict(self.rules@.take(i as int), p.os),
            decreases self.rules.len() - i,
        {
            let rule = &self.rules[i];
            let matches = match &rule.os {
                Some(o) => match &o.name {
                    Some(n) => str_eq(n.as_str(), os),
                    None => true,
                },
                None => true,
            };
            proof {
                assert(self.rules@.take(i + 1).drop_last() =~= self.rules@.take(i as int));
                assert(self.rules@.take(i + 1).last() == self.rules@[i as int]);
            }
            if matches {
                allow = str_eq(rule.action.as_str(), "allow");
            }
            i = i + 1;
        }
        assert(self.rules@.take(self.rules@.len() as int) =~= self.rules@);
        allow
    }

    /// The native classifier for the operating system of `p`
    /// (e.g. "natives-windows"), if the library has one.
    pub fn native_classifier(&self, p: &Platform) -> (r: Option<String>)
        ensures
            r == match self.natives {
                Some(m) => match assoc_get(m@, os_name(p.os)) {
                    Some(c) => Some(c),
                    None => None,
                },
                None => None::<String>,
            },
    {
        match &self.natives {
            Some(m) => match find_key(m, p.os.name()) {
                Some(i) => Some(m[i].1.clone()),
                None => None,
            },
            None => None,
        }
    }
}

fn any_feature_on(f: &Vec<(String, bool)>) -> (r: bool)
    ensures
        r == expects_feature(f@),
{
    let mut i: usize = 0;
    while i < f.len()
        invariant
            i <= f@.len(),
            forall|j: int| 0 <= j < i ==> !(#[trigger] f@[j]).1,
        decreases f.len() - i,
    {
        if f[i].1 {
            return true;
        }
        i = i + 1;
    }
    false
}

fn rule_matches(rule: &Rule, p: &Platform) -> (r: bool)
    ensures
        r == rule_matches_spec(*rule, *p),
{
    if let Some(os) = &rule.os {
        if let Some(name) = &os.name {
            if !str_eq(name.as_str(), p.os.name()) {
                return false;
            }
        }
        if let Some(arch) = &os.arch {
            if !str_eq(arch.as_str(), p.arch.as_str()) {
                return false;
            }
        }
    }
    // No feature is turned on (demo, custom resolution, quick play...):
    // a rule that expects one to be on never applies.
    if let Some(features) = &rule.features {
        if any_feature_on(features) {
            return false;
        }
    }
    true
}

/// Evaluates allow/disallow rules for the platform (OS, architecture and
/// features); used for libraries and arguments alike.
pub fn rules_allow(rules: &Vec<Rule>, p: &Platform) -> (r: bool)
    requires
        rules_wf(rules@),
    ensures
        r == rules_allow_spec(rules@, *p),
{
    if rules.len() == 0 {
        return true;
    }
    let mut allow = false;
    let mut i: usize = 0;
    while i < rules.len()
        invariant
            i <= rules@.len(),
            allow == rules_verdict(rules@.take(i as int), *p),
        decreases rules.len() - i,
    {
        proof {
            assert(rules@.take(i + 1).drop_last() =~= rules@.take(i as int));
            assert(rules@.take(i + 1).last() == rules@[i as int]);
        }
        if rule_matches(&rules[i], p) {
            allow = str_eq(rules[i].action.as_str(), "allow");
        }
        i = i + 1;
    }
    assert(rules@.take(rules@.len() as int) =~= rules@);
    allow
}

/// The two rule evaluations agree on rules that name no architecture and
/// no feature: `Library::allowed` and `rules_allow` then give the same
/// answer.
pub proof fn lemma_rule_evaluations_agree(rules: Seq<Rule>, p: Platform)
    requires
        forall|i: int|
            0 <= i < rules.len() ==> (#[trigger] rules[i]).features is None && match rules[i].os {
                Some(o) => o.arch is None,
                None => true,
            },
    ensures
        library_verdict(rules, p.os) == rules_verdict(rules, p),
    decreases rules.len(),
{
    if rules.len() > 0 {
        let init = rules.drop_last();
        assert forall|i: int|
            0 <= i < init.len() implies (#[trigger] init[i]).features is None && match init[i].os {
                Some(o) => o.arch is None,
                None => true,
            } by {
            assert(init[i] == rules[i]);
        }
        lemma_rule_evaluations_agree(init, p);
        assert(rules.last() == rules[rules.len() - 1]);
    }
}

} // verus!
