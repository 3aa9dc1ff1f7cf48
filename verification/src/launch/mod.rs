//! Preparation of a Vanilla Minecraft launch: the installation's paths, the
//! client jar check, the classpath (honouring library rules), the Java to
//! use and the JVM and game arguments with every known variable replaced.
//! Nothing here starts Java; the plan's `command` is the complete argv.

pub mod jar;
pub mod natives;
pub mod process;

use vstd::prelude::*;
use crate::download::{file_sha1, sha1_hex};
use crate::error::AetherError;
use crate::install::vanilla::{maven_path, maven_to_path};
use crate::minecraft::version::{
    args_wf, rules_wf,
    library_allowed, rules_allow, rules_allow_spec, ArgElement, ArgValue, Artifact, Library,
    VersionDetail,
};
use crate::platform::{join, join_path, Os, Platform};
use crate::text::{
    chars_of, join as join_seqs, join_exec, push_all, replace_all, replace_all_exec, str_eq,
    string_from_chars, views, words, words_exec,
};

verus! {

/// Classpath separator: `;` on Windows, `:` elsewhere.
pub open spec fn cp_sep(os: Os) -> char {
    if os == Os::Windows {
        ';'
    } else {
        ':'
    }
}

pub fn classpath_separator(os: Os) -> (r: char)
    ensures
        r == cp_sep(os),
{
    if os == Os::Windows {
        ';'
    } else {
        ':'
    }
}

/// Name of the Java binary: `java.exe` on Windows, `java` elsewhere.
pub open spec fn java_bin(os: Os) -> Seq<char> {
    if os == Os::Windows {
        "java.exe"@
    } else {
        "java"@
    }
}

pub fn java_bin_name(os: Os) -> (r: &'static str)
    ensures
        r@ == java_bin(os),
{
    if os == Os::Windows {
        "java.exe"
    } else {
        "java"
    }
}

/// The resolved paths of one installation.
pub struct InstalledPaths {
    pub data_dir: String,
    pub libraries_dir: String,
    pub assets_dir: String,
    pub natives_dir: String,
    pub game_dir: String,
    pub version_json: String,
    pub client_jar: String,
}

/// `<data>/versions/<version>`.
pub open spec fn versions_dir(os: Os, data: Seq<char>, version: Seq<char>) -> Seq<char> {
    join_path(os, join_path(os, data, "versions"@), version)
}

/// `<instance path>/minecraft`.
pub open spec fn game_dir_of(os: Os, instance_path: Seq<char>) -> Seq<char> {
    join_path(os, instance_path, "minecraft"@)
}

/// The layout shared by the installer and the launcher: libraries and
/// assets under the data directory, the version's JSON and client jar under
/// `versions/<version>`, natives under the instance's game directory.
pub open spec fn is_layout(
    p: InstalledPaths,
    os: Os,
    data: Seq<char>,
    instance_path: Seq<char>,
    version: Seq<char>,
) -> bool {
    &&& p.data_dir@ == data
    &&& p.libraries_dir@ == join_path(os, data, "libraries"@)
    &&& p.assets_dir@ == join_path(os, data, "assets"@)
    &&& p.game_dir@ == game_dir_of(os, instance_path)
    &&& p.natives_dir@ == join_path(os, game_dir_of(os, instance_path), "natives"@)
    &&& p.version_json@ == join_path(os, versions_dir(os, data, version), version + ".json"@)
    &&& p.client_jar@ == join_path(os, versions_dir(os, data, version), version + ".jar"@)
}

fn suffixed(s: &str, suffix: &str) -> (r: String)
    ensures
        r@ == s@ + suffix@,
{
    let mut r = s.to_owned();
    r.append(suffix);
    r
}

/// The paths of the installation of `version` for an instance stored at
/// `instance_path`, with `data_dir` as the launcher's data directory.
pub fn installed_paths(data_dir: &str, instance_path: &str, version: &str, os: Os) -> (r:
    InstalledPaths)
    ensures
        is_layout(r, os, data_dir@, instance_path@, version@),
{
    let versions = join(os, data_dir, "versions");
    let vdir = join(os, versions.as_str(), version);
    let game_dir = join(os, instance_path, "minecraft");
    let json_name = suffixed(version, ".json");
    let jar_name = suffixed(version, ".jar");
    InstalledPaths {
        data_dir: data_dir.to_owned(),
        libraries_dir: join(os, data_dir, "libraries"),
        assets_dir: join(os, data_dir, "assets"),
        natives_dir: join(os, game_dir.as_str(), "natives"),
        version_json: join(os, vdir.as_str(), json_name.as_str()),
        client_jar: join(os, vdir.as_str(), jar_name.as_str()),
        game_dir,
    }
}

/// `<data>/versions/<version>/<version>.json`, where the installer caches a
/// version's JSON.
pub fn version_json_path(data_dir: &str, version: &str, os: Os) -> (r: String)
    ensures
        r@ == join_path(os, versions_dir(os, data_dir@, version@), version@ + ".json"@),
{
    let versions = join(os, data_dir, "versions");
    let vdir = join(os, versions.as_str(), version);
    let json_name = suffixed(version, ".json");
    join(os, vdir.as_str(), json_name.as_str())
}

/// Detects an installation: given whether its version JSON and client jar
/// exist on disk, the paths, or `NotFound` for the first one missing.
pub fn detect_installation(
    paths: InstalledPaths,
    version: &str,
    version_json_exists: bool,
    client_jar_exists: bool,
) -> (r: Result<InstalledPaths, AetherError>)
    ensures
        version_json_exists && client_jar_exists ==> r == Ok::<InstalledPaths, AetherError>(paths),
        !version_json_exists ==> (r matches Err(AetherError::NotFound(m)) && m@
            == "version.json de "@ + version@ + " (la instancia no esta instalada)"@),
        version_json_exists && !client_jar_exists ==> (r matches Err(AetherError::NotFound(m))
            && m@ == "client.jar de "@ + version@),
{
    if !version_json_exists {
        let m = suffixed(
            suffixed("version.json de ", version).as_str(),
            " (la instancia no esta instalada)",
        );
        return Err(AetherError::NotFound(m));
    }
    if !client_jar_exists {
        return Err(AetherError::NotFound(suffixed("client.jar de ", version)));
    }
    Ok(paths)
}

/// Checks the client jar's bytes against the SHA-1 the version JSON gives.
pub fn verify_client_jar(client_jar: &str, jar_bytes: &[u8], expected_sha1: &str) -> (r: Result<
    (),
    AetherError,
>)
    ensures
        sha1_hex(jar_bytes@) == expected_sha1@ ==> r is Ok,
        sha1_hex(jar_bytes@) != expected_sha1@ ==> (r matches Err(
            AetherError::HashMismatch { path, expected, actual },
        ) && path@ == client_jar@ && expected@ == expected_sha1@ && actual@ == sha1_hex(jar_bytes@)),
{
    let actual = file_sha1(jar_bytes);
    if !str_eq(actual.as_str(), expected_sha1) {
        return Err(
            AetherError::HashMismatch {
                path: client_jar.to_owned(),
                expected: expected_sha1.to_owned(),
                actual,
            },
        );
    }
    Ok(())
}

/// Where a library's artifact lives below the libraries directory: the
/// path the metadata gives, or the one derived from the maven name.
pub open spec fn artifact_rel(art: Artifact, lib_name: Seq<char>) -> Seq<char> {
    match art.path {
        Some(p) => p@,
        None => maven_path(lib_name),
    }
}

pub fn artifact_rel_path(art: &Artifact, lib_name: &str) -> (r: String)
    ensures
        r@ == artifact_rel(*art, lib_name@),
{
    match &art.path {
        Some(p) => p.clone(),
        None => maven_to_path(lib_name),
    }
}

/// The jar of a library, if the library is allowed and has an artifact.
pub open spec fn library_jar(lib: Library, dir: Seq<char>, os: Os) -> Option<Seq<char>> {
    if library_allowed(lib, os) {
        match lib.downloads {
            Some(dl) => match dl.artifact {
                Some(a) => Some(join_path(os, dir, artifact_rel(a, lib.name@))),
                None => None,
            },
            None => None,
        }
    } else {
        None
    }
}

/// The jars of the allowed libraries that have an artifact, in order.
pub open spec fn library_jars(libs: Seq<Library>, dir: Seq<char>, os: Os) -> Seq<Seq<char>>
    decreases libs.len(),
{
    if libs.len() == 0 {
        Seq::empty()
    } else {
        library_jars(libs.drop_last(), dir, os) + match library_jar(libs.last(), dir, os) {
            Some(j) => seq![j],
            None => Seq::empty(),
        }
    }
}

/// Builds the classpath: the allowed libraries' jars, then the client jar.
pub fn build_classpath(
    detail: &VersionDetail,
    libraries_dir: &str,
    client_jar: &str,
    p: &Platform,
) -> (cp: Vec<String>)
    requires
        detail.wf(),
    ensures
        views(cp@) == library_jars(detail.libraries@, libraries_dir@, p.os).push(client_jar@),
{
    let mut cp: Vec<String> = Vec::new();
    let libs = &detail.libraries;
    let mut i: usize = 0;
    while i < libs.len()
        invariant
            i <= libs@.len(),
            views(cp@) == library_jars(libs@.take(i as int), libraries_dir@, p.os),
        decreases libs.len() - i,
    {
        let lib = &libs[i];
        proof {
            assert(libs@.take(i + 1).drop_last() =~= libs@.take(i as int));
            assert(libs@.take(i + 1).last() == libs@[i as int]);
        }
        let ghost before = cp@;
        if lib.allowed(p) {
            if let Some(dl) = &lib.downloads {
                if let Some(art) = &dl.artifact {
                    let rel = artifact_rel_path(art, lib.name.as_str());
                    cp.push(join(p.os, libraries_dir, rel.as_str()));
                }
            }
        }
        proof {
            assert(views(cp@) =~= views(before) + match library_jar(*lib, libraries_dir@, p.os) {
                Some(j) => seq![j],
                None => Seq::empty(),
            });
        }
        i = i + 1;
    }
    assert(libs@.take(libs@.len() as int) =~= libs@);
    let ghost before = cp@;
    cp.push(client_jar.to_owned());
    assert(views(cp@) =~= views(before).push(client_jar@));
    cp
}

/// `<home>/bin/<java binary>`: the Java a `JAVA_HOME` points to.
pub open spec fn java_home_java(home: Seq<char>, os: Os) -> Seq<char> {
    join_path(os, join_path(os, home, "bin"@), java_bin(os))
}

pub fn java_home_candidate(home: &str, os: Os) -> (r: String)
    ensures
        r@ == java_home_java(home@, os),
{
    let bin = join(os, home, "bin");
    join(os, bin.as_str(), java_bin_name(os))
}

/// The Java to run: the instance's configured one if it exists, then the
/// one under a non-empty `JAVA_HOME` if it exists, else the bare binary name
/// (looked up on `PATH`).
pub open spec fn chosen_java(
    configured: Option<String>,
    configured_exists: bool,
    java_home: Option<Seq<char>>,
    home_java_exists: bool,
    os: Os,
) -> Seq<char> {
    if configured is Some && configured_exists {
        configured->0@
    } else if java_home is Some && java_home->0.len() > 0 && home_java_exists {
        java_home_java(java_home->0, os)
    } else {
        java_bin(os)
    }
}

/// Resolves the Java binary. `configured_exists` tells whether the
/// configured path exists; `java_home` is the `JAVA_HOME` variable, if set;
/// `home_java_exists` tells whether its `bin/java` exists.
pub fn resolve_java(
    configured: &Option<String>,
    configured_exists: bool,
    java_home: Option<&str>,
    home_java_exists: bool,
    os: Os,
) -> (r: String)
    ensures
        r@ == chosen_java(
            *configured,
            configured_exists,
            match java_home {
                Some(h) => Some(h@),
                None => None,
            },
            home_java_exists,
            os,
        ),
{
    if let Some(c) = configured {
        if configured_exists {
            return c.clone();
        }
    }
    if let Some(home) = java_home {
        if home.unicode_len() > 0 && home_java_exists {
            return java_home_candidate(home, os);
        }
    }
    java_bin_name(os).to_owned()
}

/// The character views of a variable table.
pub open spec fn var_views(vars: Seq<(String, String)>) -> Seq<(Seq<char>, Seq<char>)> {
    vars.map_values(|p: (String, String)| (p.0@, p.1@))
}

/// `${key}`.
pub open spec fn placeholder(key: Seq<char>) -> Seq<char> {
    seq!['$', '{'] + key + seq!['}']
}

/// `template` with the variables replaced one after the other, in table order.
pub open spec fn subst(template: Seq<char>, vars: Seq<(Seq<char>, Seq<char>)>) -> Seq<char>
    decreases vars.len(),
{
    if vars.len() == 0 {
        template
    } else {
        replace_all(subst(template, vars.drop_last()), placeholder(vars.last().0), vars.last().1)
    }
}

proof fn lemma_replace_all_absent(s: Seq<char>, pat: Seq<char>, rep: Seq<char>)
    requires
        pat.len() > 0,
        !s.contains(pat[0]),
    ensures
        replace_all(s, pat, rep) == s,
    decreases s.len(),
{
    if s.len() >= pat.len() {
        if s.take(pat.len() as int) == pat {
            assert(s[0] == s.take(pat.len() as int)[0]);
        }
        let t = s.drop_first();
        assert forall|i: int| 0 <= i < t.len() implies t[i] != pat[0] by {
            assert(t[i] == s[i + 1]);
        }
        lemma_replace_all_absent(t, pat, rep);
        assert(seq![s[0]] + t =~= s);
    }
}

/// A template without any `$` is left unchanged, whatever the variables.
pub proof fn lemma_subst_without_placeholders(template: Seq<char>, vars: Seq<(Seq<char>, Seq<char>)>)
    requires
        !template.contains('$'),
    ensures
        subst(template, vars) == template,
    decreases vars.len(),
{
    if vars.len() > 0 {
        lemma_subst_without_placeholders(template, vars.drop_last());
        assert(placeholder(vars.last().0)[0] == '$');
        lemma_replace_all_absent(template, placeholder(vars.last().0), vars.last().1);
    }
}

proof fn lemma_subst_concat(
    template: Seq<char>,
    a: Seq<(Seq<char>, Seq<char>)>,
    b: Seq<(Seq<char>, Seq<char>)>,
)
    ensures
        subst(template, a + b) == subst(subst(template, a), b),
    decreases b.len(),
{
    if b.len() == 0 {
        assert(a + b =~= a);
    } else {
        lemma_subst_concat(template, a, b.drop_last());
        assert((a + b).drop_last() =~= a + b.drop_last());
        assert((a + b).last() == b.last());
    }
}

proof fn lemma_replace_all_once(pre: Seq<char>, pat: Seq<char>, rep: Seq<char>)
    requires
        pat.len() > 0,
        forall|i: int| 0 <= i < pre.len() ==> pre[i] != pat[0],
    ensures
        replace_all(pre + pat, pat, rep) == pre + rep,
    decreases pre.len(),
{
    let s = pre + pat;
    if pre.len() == 0 {
        assert(s =~= pat);
        assert(s.take(pat.len() as int) =~= pat);
        assert(s.skip(pat.len() as int) =~= Seq::<char>::empty());
        assert(replace_all(s.skip(pat.len() as int), pat, rep) == Seq::<char>::empty());
        assert(replace_all(s, pat, rep) == rep + replace_all(s.skip(pat.len() as int), pat, rep));
        assert(pre + rep =~= rep + Seq::<char>::empty());
    } else {
        assert(s.take(pat.len() as int)[0] == pre[0]);
        assert(s.take(pat.len() as int) != pat);
        let t = pre.drop_first();
        assert(s.drop_first() =~= t + pat);
        assert forall|i: int| 0 <= i < t.len() implies t[i] != pat[0] by {
            assert(t[i] == pre[i + 1]);
        }
        lemma_replace_all_once(t, pat, rep);
        assert(s.len() >= pat.len());
        assert(s[0] == pre[0]);
        assert(replace_all(s, pat, rep) == seq![s[0]] + replace_all(s.drop_first(), pat, rep));
        assert(seq![pre[0]] + (t + rep) =~= pre + rep);
    }
}

/// The natives directory of a launch is the installation's natives folder:
/// the modern template `-Djava.library.path=${natives_directory}` becomes
/// `-Djava.library.path=` followed by `paths.natives_dir`, whatever the
/// other variables (for a folder without `$`, which the later variables
/// would otherwise rewrite).
pub proof fn lemma_library_path_is_natives_dir(
    paths: InstalledPaths,
    classpath: Seq<char>,
    sep: char,
    version: Seq<char>,
    assets_index: Seq<char>,
    launcher_version: Seq<char>,
)
    requires
        !paths.natives_dir@.contains('$'),
    ensures
        subst(
            "-Djava.library.path=${natives_directory}"@,
            launch_vars(paths, classpath, sep, version, assets_index, launcher_version),
        ) == "-Djava.library.path="@ + paths.natives_dir@,
{
    reveal_strlit("-Djava.library.path=${natives_directory}");
    reveal_strlit("-Djava.library.path=");
    reveal_strlit("natives_directory");
    let vars = launch_vars(paths, classpath, sep, version, assets_index, launcher_version);
    let pre = "-Djava.library.path="@;
    let t = "-Djava.library.path=${natives_directory}"@;
    let pat = placeholder("natives_directory"@);
    assert(t =~= pre + pat);
    assert(vars =~= seq![vars[0]] + vars.skip(1));
    lemma_subst_concat(t, seq![vars[0]], vars.skip(1));
    let first = seq![vars[0]];
    assert(first.drop_last() =~= Seq::<(Seq<char>, Seq<char>)>::empty());
    assert(subst(t, first.drop_last()) == t);
    assert(first.last() == ("natives_directory"@, paths.natives_dir@));
    assert forall|i: int| 0 <= i < pre.len() implies pre[i] != pat[0] by {}
    lemma_replace_all_once(pre, pat, paths.natives_dir@);
    let once = pre + paths.natives_dir@;
    assert(subst(t, first) == once);
    assert(!once.contains('$')) by {
        if once.contains('$') {
            let i = choose|i: int| 0 <= i < once.len() && once[i] == '$';
            if i >= pre.len() {
                assert(paths.natives_dir@[i - pre.len()] == '$');
            }
        }
    }
    lemma_subst_without_placeholders(once, vars.skip(1));
}

/// A modern launch passes the JVM the natives folder: where the version's
/// JVM arguments hold `-Djava.library.path=${natives_directory}`, the plan's
/// JVM arguments hold `-Djava.library.path=<natives_dir>`.
pub proof fn lemma_plan_library_path(
    version: Seq<char>,
    paths: InstalledPaths,
    detail: VersionDetail,
    launcher_version: Seq<char>,
    p: Platform,
    k: int,
)
    requires
        !paths.natives_dir@.contains('$'),
        detail.arguments matches Some(a) && 0 <= k < a.jvm@.len() && (a.jvm@[k] matches ArgElement::Simple(
            s,
        ) && s@ == "-Djava.library.path=${natives_directory}"@),
    ensures
        plan_jvm_args(version, paths, detail, launcher_version, p).contains(
            "-Djava.library.path="@ + paths.natives_dir@,
        ),
{
    let a = detail.arguments->0;
    let vars = plan_vars(version, paths, detail, launcher_version, p);
    lemma_library_path_is_natives_dir(
        paths,
        join_seqs(launch_classpath(detail, paths, p), seq![cp_sep(p.os)]),
        cp_sep(p.os),
        version,
        detail.assets@,
        launcher_version,
    );
    assert(element_args(a.jvm@[k], vars, p) == seq!["-Djava.library.path="@ + paths.natives_dir@]);
    lemma_args_of_contains(a.jvm@, vars, p, k, 0);
}

proof fn lemma_args_of_contains(
    elements: Seq<ArgElement>,
    vars: Seq<(Seq<char>, Seq<char>)>,
    p: Platform,
    k: int,
    m: int,
)
    requires
        0 <= k < elements.len(),
        0 <= m < element_args(elements[k], vars, p).len(),
    ensures
        args_of(elements, vars, p).contains(element_args(elements[k], vars, p)[m]),
    decreases elements.len(),
{
    let init = args_of(elements.drop_last(), vars, p);
    let last = element_args(elements.last(), vars, p);
    if k == elements.len() - 1 {
        assert(args_of(elements, vars, p)[init.len() + m] == last[m]);
    } else {
        assert(elements.drop_last()[k] == elements[k]);
        lemma_args_of_contains(elements.drop_last(), vars, p, k, m);
        let x = element_args(elements[k], vars, p)[m];
        let i = choose|i: int| 0 <= i < init.len() && init[i] == x;
        assert(args_of(elements, vars, p)[i] == x);
    }
}

/// The installer and the launcher agree on where a version's JSON is
/// cached: the installation's `version_json` is the path the runtime
/// detector reads.
pub proof fn lemma_version_json_shared(
    p: InstalledPaths,
    os: Os,
    data: Seq<char>,
    instance_path: Seq<char>,
    version: Seq<char>,
)
    requires
        is_layout(p, os, data, instance_path, version),
    ensures
        p.version_json@ == join_path(os, versions_dir(os, data, version), version + ".json"@),
{
}

/// Replaces every known `${...}` variable in a template.
pub fn substitute(template: &str, vars: &Vec<(String, String)>) -> (r: String)
    ensures
        r@ == subst(template@, var_views(vars@)),
{
    let mut out = chars_of(template);
    let mut i: usize = 0;
    while i < vars.len()
        invariant
            i <= vars@.len(),
            out@ == subst(template@, var_views(vars@.take(i as int))),
        decreases vars.len() - i,
    {
        let mut needle: Vec<char> = Vec::new();
        needle.push('$');
        needle.push('{');
        let key = chars_of(vars[i].0.as_str());
        push_all(&mut needle, key.as_slice());
        needle.push('}');
        let value = chars_of(vars[i].1.as_str());
        proof {
            assert(needle@ =~= placeholder(vars@[i as int].0@));
            assert(var_views(vars@.take(i + 1)).drop_last() =~= var_views(vars@.take(i as int)));
            assert(var_views(vars@.take(i + 1)).last() == (vars@[i as int].0@, vars@[i as int].1@));
        }
        out = replace_all_exec(out.as_slice(), needle.as_slice(), value.as_slice());
        i = i + 1;
    }
    assert(vars@.take(vars@.len() as int) =~= vars@);
    string_from_chars(out.as_slice())
}

/// The arguments one element contributes: a plain string, or a
/// conditional's value(s) when its rules allow, each with variables replaced.
pub open spec fn element_args(
    e: ArgElement,
    vars: Seq<(Seq<char>, Seq<char>)>,
    p: Platform,
) -> Seq<Seq<char>> {
    match e {
        ArgElement::Simple(s) => seq![subst(s@, vars)],
        ArgElement::Conditional { rules, value } => if rules_allow_spec(rules@, p) {
            match value {
                ArgValue::Single(s) => seq![subst(s@, vars)],
                ArgValue::Many(list) => list@.map_values(|s: String| subst(s@, vars)),
            }
        } else {
            Seq::empty()
        },
    }
}

/// The flattened arguments of a modern argument list.
pub open spec fn args_of(
    elements: Seq<ArgElement>,
    vars: Seq<(Seq<char>, Seq<char>)>,
    p: Platform,
) -> Seq<Seq<char>>
    decreases elements.len(),
{
    if elements.len() == 0 {
        Seq::empty()
    } else {
        args_of(elements.drop_last(), vars, p) + element_args(elements.last(), vars, p)
    }
}

/// Flattens a modern argument list: conditionals whose rules do not apply
/// are dropped, and variables are replaced.
pub fn collect_args(elements: &Vec<ArgElement>, vars: &Vec<(String, String)>, p: &Platform) -> (r:
    Vec<String>)
    requires
        args_wf(elements@),
    ensures
        views(r@) == args_of(elements@, var_views(vars@), *p),
{
    let ghost vv = var_views(vars@);
    let mut out: Vec<String> = Vec::new();
    let mut i: usize = 0;
    while i < elements.len()
        invariant
            i <= elements@.len(),
            vv == var_views(vars@),
            args_wf(elements@),
            views(out@) == args_of(elements@.take(i as int), vv, *p),
        decreases elements.len() - i,
    {
        let ghost before = out@;
        proof {
            assert(elements@.take(i + 1).drop_last() =~= elements@.take(i as int));
            assert(elements@.take(i + 1).last() == elements@[i as int]);
        }
        match &elements[i] {
            ArgElement::Simple(s) => {
                out.push(substitute(s.as_str(), vars));
                assert(views(out@) =~= views(before) + element_args(elements@[i as int], vv, *p));
            },
            ArgElement::Conditional { rules, value } => {
                assert(rules_wf(rules@)) by {
                    assert(elements@[i as int] matches ArgElement::Conditional { .. });
                }
                if rules_allow(rules, p) {
                    match value {
                        ArgValue::Single(s) => {
                            out.push(substitute(s.as_str(), vars));
                            assert(views(out@) =~= views(before) + element_args(
                                elements@[i as int],
                                vv,
                                *p,
                            ));
                        },
                        ArgValue::Many(list) => {
                            let mut k: usize = 0;
                            while k < list.len()
                                invariant
                                    k <= list@.len(),
                                    vv == var_views(vars@),
                                    views(out@) == views(before) + list@.take(k as int).map_values(
                                        |s: String| subst(s@, vv),
                                    ),
                                decreases list.len() - k,
                            {
                                let ghost b2 = out@;
                                out.push(substitute(list[k].as_str(), vars));
                                assert(list@.take(k + 1).map_values(|s: String| subst(s@, vv))
                                    =~= list@.take(k as int).map_values(|s: String| subst(s@, vv)).push(
                                    subst(list@[k as int]@, vv),
                                ));
                                assert(views(out@) =~= views(b2).push(subst(list@[k as int]@, vv)));
                                k = k + 1;
                            }
                            assert(list@.take(list@.len() as int) =~= list@);
                        },
                    }
                } else {
                    assert(views(out@) =~= views(before) + element_args(elements@[i as int], vv, *p));
                }
            },
        }
        i = i + 1;
    }
    assert(elements@.take(elements@.len() as int) =~= elements@);
    out
}

/// The complete launch plan. `command` is the final argv (`command[0]` is
/// the Java binary); nothing has been run.
pub struct LaunchPlan {
    pub java: String,
    pub jvm_args: Vec<String>,
    pub main_class: String,
    pub game_args: Vec<String>,
    pub classpath: Vec<String>,
    pub game_dir: String,
    pub command: Vec<String>,
}

/// The variable table of a launch, in the order its entries are applied.
/// Authentication entries are placeholders until there is a login.
pub open spec fn launch_vars(
    paths: InstalledPaths,
    classpath: Seq<char>,
    sep: char,
    version: Seq<char>,
    assets_index: Seq<char>,
    launcher_version: Seq<char>,
) -> Seq<(Seq<char>, Seq<char>)> {
    seq![
        ("natives_directory"@, paths.natives_dir@),
        ("launcher_name"@, "AetherLauncher"@),
        ("launcher_version"@, launcher_version),
        ("classpath"@, classpath),
        ("classpath_separator"@, seq![sep]),
        ("library_directory"@, paths.libraries_dir@),
        ("version_name"@, version),
        ("version_type"@, "release"@),
        ("game_directory"@, paths.game_dir@),
        ("assets_root"@, paths.assets_dir@),
        ("game_assets"@, paths.assets_dir@),
        ("assets_index_name"@, assets_index),
        ("auth_player_name"@, "Player"@),
        ("auth_uuid"@, "00000000000000000000000000000000"@),
        ("auth_access_token"@, "0"@),
        ("auth_session"@, "0"@),
        ("auth_xuid"@, "0"@),
        ("clientid"@, "0"@),
        ("user_type"@, "msa"@),
        ("user_properties"@, "{}"@),
    ]
}

fn push_var(vars: &mut Vec<(String, String)>, key: &str, value: String)
    ensures
        var_views(final(vars)@) == var_views(old(vars)@).push((key@, value@)),
{
    vars.push((key.to_owned(), value));
    assert(var_views(final(vars)@) =~= var_views(old(vars)@).push((key@, value@)));
}

/// Builds the variable table of a launch.
pub fn launch_variables(
    paths: &InstalledPaths,
    classpath: &String,
    sep: char,
    version: &str,
    assets_index: &str,
    launcher_version: &str,
) -> (r: Vec<(String, String)>)
    ensures
        var_views(r@) == launch_vars(*paths, classpath@, sep, version@, assets_index@, launcher_version@),
{
    let mut sep_chars: Vec<char> = Vec::new();
    sep_chars.push(sep);
    let mut v: Vec<(String, String)> = Vec::new();
    assert(var_views(v@) =~= Seq::empty());
    push_var(&mut v, "natives_directory", paths.natives_dir.clone());
    push_var(&mut v, "launcher_name", "AetherLauncher".to_owned());
    push_var(&mut v, "launcher_version", launcher_version.to_owned());
    push_var(&mut v, "classpath", classpath.clone());
    assert(sep_chars@ =~= seq![sep]);
    push_var(&mut v, "classpath_separator", string_from_chars(sep_chars.as_slice()));
    push_var(&mut v, "library_directory", paths.libraries_dir.clone());
    push_var(&mut v, "version_name", version.to_owned());
    push_var(&mut v, "version_type", "release".to_owned());
    push_var(&mut v, "game_directory", paths.game_dir.clone());
    push_var(&mut v, "assets_root", paths.assets_dir.clone());
    push_var(&mut v, "game_assets", paths.assets_dir.clone());
    push_var(&mut v, "assets_index_name", assets_index.to_owned());
    push_var(&mut v, "auth_player_name", "Player".to_owned());
    push_var(&mut v, "auth_uuid", "00000000000000000000000000000000".to_owned());
    push_var(&mut v, "auth_access_token", "0".to_owned());
    push_var(&mut v, "auth_session", "0".to_owned());
    push_var(&mut v, "auth_xuid", "0".to_owned());
    push_var(&mut v, "clientid", "0".to_owned());
    push_var(&mut v, "user_type", "msa".to_owned());
    push_var(&mut v, "user_properties", "{}".to_owned());
    assert(var_views(v@) =~= launch_vars(
        *paths,
        classpath@,
        sep,
        version@,
        assets_index@,
        launcher_version@,
    ));
    v
}

/// The classpath of a launch.
pub open spec fn launch_classpath(detail: VersionDetail, paths: InstalledPaths, p: Platform) -> Seq<
    Seq<char>,
> {
    library_jars(detail.libraries@, paths.libraries_dir@, p.os).push(paths.client_jar@)
}

/// The variable table of a launch, from its inputs.
pub open spec fn plan_vars(
    version: Seq<char>,
    paths: InstalledPaths,
    detail: VersionDetail,
    launcher_version: Seq<char>,
    p: Platform,
) -> Seq<(Seq<char>, Seq<char>)> {
    launch_vars(
        paths,
        join_seqs(launch_classpath(detail, paths, p), seq![cp_sep(p.os)]),
        cp_sep(p.os),
        version,
        detail.assets@,
        launcher_version,
    )
}

/// JVM arguments: the modern list, or for legacy versions
/// `-Djava.library.path=<natives>`, `-cp`, `<classpath>`.
pub open spec fn plan_jvm_args(
    version: Seq<char>,
    paths: InstalledPaths,
    detail: VersionDetail,
    launcher_version: Seq<char>,
    p: Platform,
) -> Seq<Seq<char>> {
    let vars = plan_vars(version, paths, detail, launcher_version, p);
    match detail.arguments {
        Some(a) => args_of(a.jvm@, vars, p),
        None => seq![
            "-Djava.library.path="@ + paths.natives_dir@,
            "-cp"@,
            join_seqs(launch_classpath(detail, paths, p), seq![cp_sep(p.os)]),
        ],
    }
}

/// Game arguments: the modern list, or the words of the legacy
/// `minecraftArguments` string with variables replaced.
pub open spec fn plan_game_args(
    version: Seq<char>,
    paths: InstalledPaths,
    detail: VersionDetail,
    launcher_version: Seq<char>,
    p: Platform,
) -> Seq<Seq<char>> {
    let vars = plan_vars(version, paths, detail, launcher_version, p);
    match detail.arguments {
        Some(a) => args_of(a.game@, vars, p),
        None => words(
            match detail.minecraft_arguments {
                Some(s) => s@,
                None => Seq::empty(),
            },
        ).map_values(|w: Seq<char>| subst(w, vars)),
    }
}

fn legacy_game_args(legacy: &Option<String>, vars: &Vec<(String, String)>) -> (r: Vec<String>)
    ensures
        views(r@) == words(
            match *legacy {
                Some(s) => s@,
                None => Seq::empty(),
            },
        ).map_values(|w: Seq<char>| subst(w, var_views(vars@))),
{
    let text: Vec<char> = match legacy {
        Some(s) => chars_of(s.as_str()),
        None => Vec::new(),
    };
    let ws = words_exec(text.as_slice());
    let ghost vv = var_views(vars@);
    let mut out: Vec<String> = Vec::new();
    let mut k: usize = 0;
    while k < ws.len()
        invariant
            k <= ws@.len(),
            vv == var_views(vars@),
            ws@.len() == words(text@).len(),
            forall|j: int| 0 <= j < ws@.len() ==> #[trigger] ws@[j]@ == words(text@)[j],
            views(out@) == words(text@).take(k as int).map_values(|w: Seq<char>| subst(w, vv)),
        decreases ws.len() - k,
    {
        let w = string_from_chars(ws[k].as_slice());
        let ghost b = out@;
        let sw = substitute(w.as_str(), vars);
        assert(sw@ == subst(words(text@)[k as int], vv));
        out.push(sw);
        assert(views(out@) =~= views(b).push(subst(words(text@)[k as int], vv)));
        assert(words(text@).take(k + 1).map_values(|w: Seq<char>| subst(w, vv)) =~= words(
            text@,
        ).take(k as int).map_values(|w: Seq<char>| subst(w, vv)).push(
            subst(words(text@)[k as int], vv),
        ));
        k = k + 1;
    }
    assert(words(text@).take(ws@.len() as int) =~= words(text@));
    out
}

/// Builds the launch plan of an installation whose paths, version detail and
/// Java binary are known.
pub fn plan_launch(
    version: &str,
    paths: &InstalledPaths,
    detail: &VersionDetail,
    java: String,
    launcher_version: &str,
    p: &Platform,
) -> (r: LaunchPlan)
    requires
        detail.wf(),
    ensures
        views(r.classpath@) == launch_classpath(*detail, *paths, *p),
        r.java@ == java@,
        r.main_class@ == detail.main_class@,
        r.game_dir@ == paths.game_dir@,
        views(r.jvm_args@) == plan_jvm_args(version@, *paths, *detail, launcher_version@, *p),
        views(r.game_args@) == plan_game_args(version@, *paths, *detail, launcher_version@, *p),
        views(r.command@) == seq![java@] + plan_jvm_args(
            version@,
            *paths,
            *detail,
            launcher_version@,
            *p,
        ) + seq![detail.main_class@] + plan_game_args(
            version@,
            *paths,
            *detail,
            launcher_version@,
            *p,
        ),
{
    let classpath = build_classpath(detail, paths.libraries_dir.as_str(), paths.client_jar.as_str(), p);
    let sep = classpath_separator(p.os);
    let mut sep_chars: Vec<char> = Vec::new();
    sep_chars.push(sep);
    assert(sep_chars@ =~= seq![sep]);
    let classpath_str = join_exec(&classpath, sep_chars.as_slice());
    let vars = launch_variables(
        paths,
        &classpath_str,
        sep,
        version,
        detail.assets.as_str(),
        launcher_version,
    );
    let ghost vv = plan_vars(version@, *paths, *detail, launcher_version@, *p);
    assert(var_views(vars@) == vv);
    let jvm_args: Vec<String>;
    let game_args: Vec<String>;
    match &detail.arguments {
        Some(arguments) => {
            jvm_args = collect_args(&arguments.jvm, &vars, p);
            game_args = collect_args(&arguments.game, &vars, p);
        },
        None => {
            let mut j: Vec<String> = Vec::new();
            let mut opt = "-Djava.library.path=".to_owned();
            opt.append(paths.natives_dir.as_str());
            j.push(opt);
            j.push("-cp".to_owned());
            j.push(classpath_str.clone());
            assert(views(j@) =~= plan_jvm_args(version@, *paths, *detail, launcher_version@, *p));
            jvm_args = j;
            game_args = legacy_game_args(&detail.minecraft_arguments, &vars);
        },
    }
    let mut command: Vec<String> = Vec::new();
    command.push(java.clone());
    let mut i: usize = 0;
    while i < jvm_args.len()
        invariant
            i <= jvm_args@.len(),
            views(command@) == seq![java@] + views(jvm_args@).take(i as int),
        decreases jvm_args.len() - i,
    {
        let ghost b = command@;
        let a = jvm_args[i].clone();
        command.push(a);
        assert(views(command@) =~= views(b).push(jvm_args@[i as int]@));
        assert(views(jvm_args@).take(i + 1) =~= views(jvm_args@).take(i as int).push(
            jvm_args@[i as int]@,
        ));
        assert(views(command@) =~= seq![java@] + views(jvm_args@).take(i + 1));
        i = i + 1;
    }
    assert(views(jvm_args@).take(jvm_args@.len() as int) =~= views(jvm_args@));
    command.push(detail.main_class.clone());
    let ghost head = views(command@);
    let mut k: usize = 0;
    while k < game_args.len()
        invariant
            k <= game_args@.len(),
            views(command@) == head + views(game_args@).take(k as int),
        decreases game_args.len() - k,
    {
        let ghost b = command@;
        let a = game_args[k].clone();
        command.push(a);
        assert(views(command@) =~= views(b).push(game_args@[k as int]@));
        assert(views(game_args@).take(k + 1) =~= views(game_args@).take(k as int).push(
            game_args@[k as int]@,
        ));
        assert(views(command@) =~= head + views(game_args@).take(k + 1));
        k = k + 1;
    }
    assert(views(game_args@).take(game_args@.len() as int) =~= views(game_args@));
    assert(views(command@) =~= seq![java@] + views(jvm_args@) + seq![detail.main_class@] + views(
        game_args@,
    ));
    LaunchPlan {
        java,
        jvm_args,
        main_class: detail.main_class.clone(),
        game_args,
        classpath,
        game_dir: paths.game_dir.clone(),
        command,
    }
}

} // verus!
