//! The Vanilla installer's planning: which files to fetch, from where and
//! to where (libraries, natives, client jar, assets).

use vstd::prelude::*;
use crate::assoc::{assoc_get, find_key};
use crate::download::DownloadTask;
use crate::launch::{
    artifact_rel, artifact_rel_path, launch_classpath, library_jar, library_jars, InstalledPaths,
};
use crate::launch::natives::{classifier_jar, classifier_path, native_jar_name, native_jar_of};
use crate::minecraft::version::{library_allowed, AssetIndex, Artifact, Library, VersionDetail};
use crate::platform::{file_name, join, join_path, os_name, path_file_name, Os, Platform};
use crate::text::{
    chars_of, lemma_split_on_concat, lemma_split_on_free, push_all, replace_char, replace_char_exec, split_chars, split_on, string_from_chars,
};

verus! {

/// The Vanilla installer.
pub struct VanillaInstaller;

/// `g/r/o/u/p/artifact/version/artifact-version.jar` for a maven name
/// `g.r.o.u.p:artifact:version` (pieces after the third are ignored); a name
/// with fewer than three pieces has its `:` turned into `/`.
pub open spec fn maven_path(name: Seq<char>) -> Seq<char> {
    let parts = split_on(name, ':');
    if parts.len() < 3 {
        replace_char(name, ':', seq!['/'])
    } else {
        replace_char(parts[0], '.', seq!['/']) + seq!['/'] + parts[1] + seq!['/'] + parts[2]
            + seq!['/'] + parts[1] + seq!['-'] + parts[2] + seq!['.', 'j', 'a', 'r']
    }
}

proof fn lemma_dots_to_slashes(g: Seq<char>)
    ensures
        replace_char(g, '.', seq!['/']).len() == g.len(),
        forall|i: int|
            0 <= i < g.len() ==> #[trigger] replace_char(g, '.', seq!['/'])[i] == (if g[i] == '.' {
                '/'
            } else {
                g[i]
            }),
    decreases g.len(),
{
    if g.len() > 0 {
        let d = g.drop_last();
        lemma_dots_to_slashes(d);
        let r0 = replace_char(d, '.', seq!['/']);
        let r = replace_char(g, '.', seq!['/']);
        assert forall|i: int| 0 <= i < g.len() implies r[i] == (if g[i] == '.' {
            '/'
        } else {
            g[i]
        }) by {
            if i < g.len() - 1 {
                assert(r[i] == r0[i]);
                assert(g[i] == d[i]);
            } else {
                assert(g[i] == g.last());
            }
        }
    }
}

/// A maven name `g:a:v` (with any further `:`-pieces after `v`) maps to the
/// group spelt with every `.` as `/` (no dot of the group is left), then
/// `/a/v/a-v.jar`.
pub proof fn lemma_maven_path_layout(g: Seq<char>, a: Seq<char>, v: Seq<char>, tail: Seq<char>)
    requires
        forall|i: int| 0 <= i < g.len() ==> g[i] != ':',
        forall|i: int| 0 <= i < a.len() ==> a[i] != ':',
        forall|i: int| 0 <= i < v.len() ==> v[i] != ':',
        tail.len() == 0 || tail[0] == ':',
    ensures
        ({
            let r = maven_path(g + seq![':'] + a + seq![':'] + v + tail);
            &&& r.len() >= g.len()
            &&& forall|i: int|
                0 <= i < g.len() ==> #[trigger] r[i] == (if g[i] == '.' {
                    '/'
                } else {
                    g[i]
                })
            &&& r.skip(g.len() as int) == seq!['/'] + a + seq!['/'] + v + seq!['/'] + a + seq!['-'] + v
                + seq!['.', 'j', 'a', 'r']
        }),
{
    let name = g + seq![':'] + a + seq![':'] + v + tail;
    let rest = a + seq![':'] + v + tail;
    assert(name =~= g + seq![':'] + rest);
    lemma_split_on_concat(g, rest, ':');
    lemma_split_on_free(g, ':');
    let vt = v + tail;
    assert(rest =~= a + seq![':'] + vt);
    lemma_split_on_concat(a, vt, ':');
    lemma_split_on_free(a, ':');
    lemma_split_on_free(v, ':');
    if tail.len() == 0 {
        assert(vt =~= v);
    } else {
        let more = tail.drop_first();
        assert(vt =~= v + seq![':'] + more);
        lemma_split_on_concat(v, more, ':');
    }
    let parts = split_on(name, ':');
    assert(parts.len() >= 3);
    assert(parts[0] == g);
    assert(parts[1] == a);
    assert(parts[2] == v);
    lemma_dots_to_slashes(g);
    let r = maven_path(name);
    let dots = replace_char(g, '.', seq!['/']);
    let after = seq!['/'] + a + seq!['/'] + v + seq!['/'] + a + seq!['-'] + v + seq!['.', 'j', 'a', 'r'];
    assert(r =~= dots + after);
    assert forall|i: int| 0 <= i < g.len() implies #[trigger] r[i] == (if g[i] == '.' {
        '/'
    } else {
        g[i]
    }) by {
        assert(r[i] == dots[i]);
    }
    assert(r.skip(g.len() as int) =~= after);
}

/// Turns a maven name (group:artifact:version) into a relative `.jar` path.
pub fn maven_to_path(name: &str) -> (r: String)
    ensures
        r@ == maven_path(name@),
{
    let n = chars_of(name);
    let parts = split_chars(n.as_slice(), ':');
    let mut slash: Vec<char> = Vec::new();
    slash.push('/');
    assert(slash@ =~= seq!['/']);
    if parts.len() < 3 {
        let v = replace_char_exec(n.as_slice(), ':', slash.as_slice());
        return string_from_chars(v.as_slice());
    }
    let group = &parts[0];
    let artifact = &parts[1];
    let version = &parts[2];
    let mut out = replace_char_exec(group.as_slice(), '.', slash.as_slice());
    out.push('/');
    push_all(&mut out, artifact.as_slice());
    out.push('/');
    push_all(&mut out, version.as_slice());
    out.push('/');
    push_all(&mut out, artifact.as_slice());
    out.push('-');
    push_all(&mut out, version.as_slice());
    out.push('.');
    out.push('j');
    out.push('a');
    out.push('r');
    proof {
        let ps = split_on(name@, ':');
        assert(out@ =~= maven_path(name@));
    }
    string_from_chars(out.as_slice())
}

/// The character view of a download task: URL, destination, expected
/// SHA-1 and size.
pub open spec fn task_view(t: DownloadTask) -> (Seq<char>, Seq<char>, Option<Seq<char>>, u64) {
    (
        t.url@,
        t.dest@,
        match t.sha1 {
            Some(h) => Some(h@),
            None => None,
        },
        t.size,
    )
}

pub open spec fn task_views(ts: Seq<DownloadTask>) -> Seq<(Seq<char>, Seq<char>, Option<Seq<char>>, u64)> {
    ts.map_values(|t: DownloadTask| task_view(t))
}

/// The task fetching `art` to `dest`, checked against the artifact's hash.
pub open spec fn artifact_task(art: Artifact, dest: Seq<char>) -> (Seq<char>, Seq<char>, Option<Seq<char>>, u64) {
    (art.url@, dest, Some(art.sha1@), art.size)
}

fn make_task(art: &Artifact, dest: String) -> (r: DownloadTask)
    ensures
        task_view(r) == artifact_task(*art, dest@),
{
    DownloadTask { url: art.url.clone(), dest, sha1: Some(art.sha1.clone()), size: art.size }
}

/// File name the installer gives a natives jar in the natives folder: the
/// last component of the artifact's path (or of `<classifier>.jar`), and
/// `native.jar` when there is none.
pub open spec fn native_leaf(classifier: Seq<char>, path: Option<String>, os: Os) -> Seq<char> {
    let fname = match path {
        Some(p) => p@,
        None => classifier + ".jar"@,
    };
    match file_name(os, fname) {
        Some(n) => n,
        None => "native.jar"@,
    }
}

/// The natives artifact of a library for the platform, if it has one.
pub open spec fn native_artifact(lib: Library, os: Os) -> Option<(Seq<char>, Artifact)> {
    match lib.natives {
        Some(nm) => match assoc_get(nm@, os_name(os)) {
            Some(c) => match lib.downloads {
                Some(dl) => match dl.classifiers {
                    Some(cm) => match assoc_get(cm@, c@) {
                        Some(a) => Some((c@, a)),
                        None => None,
                    },
                    None => None,
                },
                None => None,
            },
            None => None,
        },
        None => None,
    }
}

/// The tasks of one library: its artifact under the libraries folder, then
/// its natives jar (if any) under the instance's natives folder. Libraries
/// whose rules disallow the platform give none.
pub open spec fn library_tasks(lib: Library, paths: InstalledPaths, os: Os) -> Seq<(Seq<char>, Seq<char>, Option<Seq<char>>, u64)> {
    if !library_allowed(lib, os) {
        Seq::empty()
    } else {
        match lib.downloads {
            None => Seq::empty(),
            Some(dl) => (match dl.artifact {
                Some(a) => seq![
                    artifact_task(a, join_path(os, paths.libraries_dir@, artifact_rel(a, lib.name@))),
                ],
                None => Seq::empty(),
            }) + (match native_artifact(lib, os) {
                Some((c, a)) => seq![
                    artifact_task(a, join_path(os, paths.natives_dir@, native_leaf(c, a.path, os))),
                ],
                None => Seq::empty(),
            }),
        }
    }
}

pub open spec fn libraries_tasks(libs: Seq<Library>, paths: InstalledPaths, os: Os) -> Seq<(Seq<char>, Seq<char>, Option<Seq<char>>, u64)>
    decreases libs.len(),
{
    if libs.len() == 0 {
        Seq::empty()
    } else {
        libraries_tasks(libs.drop_last(), paths, os) + library_tasks(libs.last(), paths, os)
    }
}

/// The first two bytes of an asset hash as a string slice (`&hash[0..2]`):
/// two ASCII characters, or one character encoded in two bytes; `None`
/// where the slice would not fall on a character boundary.
pub open spec fn hash_prefix(h: Seq<char>) -> Option<Seq<char>> {
    if h.len() >= 2 && (h[0] as u32) < 0x80 && (h[1] as u32) < 0x80 {
        Some(h.take(2))
    } else if h.len() >= 1 && 0x80 <= (h[0] as u32) < 0x800 {
        Some(h.take(1))
    } else {
        None
    }
}

/// Assets are cached globally by hash: `objects/<first two>/<hash>`.
pub open spec fn asset_task(obj_hash: Seq<char>, size: u64, paths: InstalledPaths, os: Os) -> (Seq<char>, Seq<char>, Option<Seq<char>>, u64) {
    let sub = hash_prefix(obj_hash)->0;
    (
        "https://resources.download.minecraft.net/"@ + sub + "/"@ + obj_hash,
        join_path(os, join_path(os, join_path(os, paths.assets_dir@, "objects"@), sub), obj_hash),
        Some(obj_hash),
        size,
    )
}

pub open spec fn assets_tasks(objs: Seq<(String, crate::minecraft::version::AssetObject)>, paths: InstalledPaths, os: Os) -> Seq<(Seq<char>, Seq<char>, Option<Seq<char>>, u64)>
    decreases objs.len(),
{
    if objs.len() == 0 {
        Seq::empty()
    } else {
        assets_tasks(objs.drop_last(), paths, os).push(
            asset_task(objs.last().1.hash@, objs.last().1.size, paths, os),
        )
    }
}

/// Every asset hash can be cut after its first two bytes.
pub open spec fn asset_hashes_ok(idx: AssetIndex) -> bool {
    forall|i: int| 0 <= i < idx.objects@.len() ==> (#[trigger] hash_prefix(idx.objects@[i].1.hash@)) is Some
}

/// Whether every asset hash of the index can be cut after its first two
/// bytes (the condition `plan_downloads` needs).
pub fn asset_hashes_valid(idx: &AssetIndex) -> (r: bool)
    ensures
        r == asset_hashes_ok(*idx),
{
    let mut i: usize = 0;
    while i < idx.objects.len()
        invariant
            i <= idx.objects@.len(),
            forall|j: int| 0 <= j < i ==> (#[trigger] hash_prefix(idx.objects@[j].1.hash@)) is Some,
        decreases idx.objects.len() - i,
    {
        let h = chars_of(idx.objects[i].1.hash.as_str());
        if hash_prefix_exec(h.as_slice()).is_none() {
            return false;
        }
        i = i + 1;
    }
    true
}

fn hash_prefix_exec(h: &[char]) -> (r: Option<Vec<char>>)
    ensures
        match r {
            Some(v) => hash_prefix(h@) == Some(v@),
            None => hash_prefix(h@) is None,
        },
{
    if h.len() >= 2 && (h[0] as u32) < 0x80 && (h[1] as u32) < 0x80 {
        let mut v: Vec<char> = Vec::new();
        v.push(h[0]);
        v.push(h[1]);
        assert(v@ =~= h@.take(2));
        Some(v)
    } else if h.len() >= 1 && 0x80 <= (h[0] as u32) && (h[0] as u32) < 0x800 {
        let mut v: Vec<char> = Vec::new();
        v.push(h[0]);
        assert(v@ =~= h@.take(1));
        Some(v)
    } else {
        None
    }
}

fn native_leaf_exec(classifier: &str, path: &Option<String>, os: Os) -> (r: String)
    ensures
        r@ == native_leaf(classifier@, *path, os),
{
    let fname = match path {
        Some(p) => p.clone(),
        None => {
            let mut f = classifier.to_owned();
            f.append(".jar");
            f
        },
    };
    match path_file_name(os, fname.as_str()) {
        Some(n) => n,
        None => "native.jar".to_owned(),
    }
}

fn library_natives_artifact<'a>(lib: &'a Library, p: &Platform) -> (r: Option<(String, &'a Artifact)>)
    ensures
        match r {
            Some((c, a)) => native_artifact(*lib, p.os) == Some((c@, *a)),
            None => native_artifact(*lib, p.os) is None,
        },
{
    let c = match &lib.natives {
        Some(nm) => match find_key(nm, p.os.name()) {
            Some(i) => nm[i].1.clone(),
            None => {
                return None;
            },
        },
        None => {
            return None;
        },
    };
    match &lib.downloads {
        Some(dl) => match &dl.classifiers {
            Some(cm) => match find_key(cm, c.as_str()) {
                Some(i) => Some((c, &cm[i].1)),
                None => None,
            },
            None => None,
        },
        None => None,
    }
}

impl VanillaInstaller {
    /// Every file of a Vanilla installation, in order: each allowed
    /// library's artifact and natives jar, the client jar, then the assets.
    pub fn plan_downloads(
        &self,
        detail: &VersionDetail,
        asset_index: &AssetIndex,
        paths: &InstalledPaths,
        p: &Platform,
    ) -> (r: Vec<DownloadTask>)
        requires
            asset_index.wf(),
            detail.wf(),
            asset_hashes_ok(*asset_index),
        ensures
            task_views(r@) == libraries_tasks(detail.libraries@, *paths, p.os).push(
                artifact_task(detail.downloads.client, paths.client_jar@),
            ) + assets_tasks(asset_index.objects@, *paths, p.os),
    {
        let mut tasks: Vec<DownloadTask> = Vec::new();
        let libs = &detail.libraries;
        let mut i: usize = 0;
        while i < libs.len()
            invariant
                i <= libs@.len(),
                task_views(tasks@) == libraries_tasks(libs@.take(i as int), *paths, p.os),
            decreases libs.len() - i,
        {
            let lib = &libs[i];
            proof {
                assert(libs@.take(i + 1).drop_last() =~= libs@.take(i as int));
                assert(libs@.take(i + 1).last() == libs@[i as int]);
            }
            let ghost before = tasks@;
            let ghost mid = tasks@;
            if lib.allowed(p) {
                if let Some(dl) = &lib.downloads {
                    if let Some(art) = &dl.artifact {
                        let rel = artifact_rel_path(art, lib.name.as_str());
                        let dest = join(p.os, paths.libraries_dir.as_str(), rel.as_str());
                        tasks.push(make_task(art, dest));
                    }
                    proof {
                        mid = tasks@;
                        assert(task_views(mid) =~= task_views(before) + match dl.artifact {
                            Some(a) => seq![
                                artifact_task(
                                    a,
                                    join_path(p.os, paths.libraries_dir@, artifact_rel(a, lib.name@)),
                                ),
                            ],
                            None => Seq::empty(),
                        });
                    }
                    if let Some((c, art)) = library_natives_artifact(lib, p) {
                        let leaf = native_leaf_exec(c.as_str(), &art.path, p.os);
                        let dest = join(p.os, paths.natives_dir.as_str(), leaf.as_str());
                        tasks.push(make_task(art, dest));
                    }
                    assert(task_views(tasks@) =~= task_views(mid) + match native_artifact(*lib, p.os) {
                        Some((c, a)) => seq![
                            artifact_task(a, join_path(p.os, paths.natives_dir@, native_leaf(c, a.path, p.os))),
                        ],
                        None => Seq::empty(),
                    });
                }
            }
            assert(task_views(tasks@) =~= task_views(before) + library_tasks(*lib, *paths, p.os));
            i = i + 1;
        }
        assert(libs@.take(libs@.len() as int) =~= libs@);
        let ghost before_client = tasks@;
        tasks.push(make_task(&detail.downloads.client, paths.client_jar.clone()));
        assert(task_views(tasks@) =~= task_views(before_client).push(
            artifact_task(detail.downloads.client, paths.client_jar@),
        ));
        let ghost head = task_views(tasks@);
        let objs = &asset_index.objects;
        let mut k: usize = 0;
        while k < objs.len()
            invariant
                k <= objs@.len(),
                asset_hashes_ok(*asset_index),
                objs == &asset_index.objects,
                task_views(tasks@) == head + assets_tasks(objs@.take(k as int), *paths, p.os),
            decreases objs.len() - k,
        {
            let obj = &objs[k].1;
            proof {
                assert(objs@.take(k + 1).drop_last() =~= objs@.take(k as int));
                assert(objs@.take(k + 1).last() == objs@[k as int]);
                assert(hash_prefix(objs@[k as int].1.hash@) is Some);
            }
            let h = chars_of(obj.hash.as_str());
            let sub = match hash_prefix_exec(h.as_slice()) {
                Some(s) => s,
                None => {
                    assert(false);
                    Vec::new()
                },
            };
            let sub_s = string_from_chars(sub.as_slice());
            let mut url = "https://resources.download.minecraft.net/".to_owned();
            url.append(sub_s.as_str());
            url.append("/");
            url.append(obj.hash.as_str());
            let objects = join(p.os, paths.assets_dir.as_str(), "objects");
            let d1 = join(p.os, objects.as_str(), sub_s.as_str());
            let dest = join(p.os, d1.as_str(), obj.hash.as_str());
            let ghost b = tasks@;
            tasks.push(DownloadTask { url, dest, sha1: Some(obj.hash.clone()), size: obj.size });
            assert(task_views(tasks@) =~= task_views(b).push(asset_task(obj.hash@, obj.size, *paths, p.os)));
            k = k + 1;
        }
        assert(objs@.take(objs@.len() as int) =~= objs@);
        tasks
    }
}

/// The full Vanilla plan of a version, as `plan_downloads` gives it.
pub open spec fn vanilla_plan(
    detail: VersionDetail,
    asset_index: AssetIndex,
    paths: InstalledPaths,
    os: Os,
) -> Seq<(Seq<char>, Seq<char>, Option<Seq<char>>, u64)> {
    libraries_tasks(detail.libraries@, paths, os).push(
        artifact_task(detail.downloads.client, paths.client_jar@),
    ) + assets_tasks(asset_index.objects@, paths, os)
}

proof fn lemma_library_task_in_tasks(
    libs: Seq<Library>,
    paths: InstalledPaths,
    os: Os,
    i: int,
    x: (Seq<char>, Seq<char>, Option<Seq<char>>, u64),
)
    requires
        0 <= i < libs.len(),
        library_tasks(libs[i], paths, os).contains(x),
    ensures
        libraries_tasks(libs, paths, os).contains(x),
    decreases libs.len(),
{
    let init = libraries_tasks(libs.drop_last(), paths, os);
    let all = libraries_tasks(libs, paths, os);
    if i < libs.len() - 1 {
        assert(libs.drop_last()[i] == libs[i]);
        lemma_library_task_in_tasks(libs.drop_last(), paths, os, i, x);
        let k = choose|k: int| 0 <= k < init.len() && init[k] == x;
        assert(all[k] == x);
    } else {
        let own = library_tasks(libs.last(), paths, os);
        assert(libs[i] == libs.last());
        let k = choose|k: int| 0 <= k < own.len() && own[k] == x;
        assert(all[init.len() + k] == x);
    }
}

/// Every library jar of the Vanilla plan is checked against its hash: for
/// an allowed library with an artifact, the plan downloads the artifact's
/// url to its place under the libraries folder with the artifact's SHA-1
/// and size, as it does for the client jar, natives and assets.
pub proof fn lemma_library_artifact_in_plan(
    detail: VersionDetail,
    asset_index: AssetIndex,
    paths: InstalledPaths,
    os: Os,
    i: int,
)
    requires
        0 <= i < detail.libraries@.len(),
        library_allowed(detail.libraries@[i], os),
        detail.libraries@[i].downloads matches Some(dl) && dl.artifact is Some,
    ensures
        ({
            let lib = detail.libraries@[i];
            let a = lib.downloads->0.artifact->0;
            vanilla_plan(detail, asset_index, paths, os).contains(
                (
                    a.url@,
                    join_path(os, paths.libraries_dir@, artifact_rel(a, lib.name@)),
                    Some(a.sha1@),
                    a.size,
                ),
            )
        }),
{
    let lib = detail.libraries@[i];
    let a = lib.downloads->0.artifact->0;
    let x = (
        a.url@,
        join_path(os, paths.libraries_dir@, artifact_rel(a, lib.name@)),
        Some(a.sha1@),
        a.size,
    );
    assert(library_tasks(lib, paths, os)[0] == x);
    lemma_library_task_in_tasks(detail.libraries@, paths, os, i, x);
    let lt = libraries_tasks(detail.libraries@, paths, os);
    let k = choose|k: int| 0 <= k < lt.len() && lt[k] == x;
    assert(vanilla_plan(detail, asset_index, paths, os)[k] == x);
}

proof fn lemma_classpath_jars_downloaded(
    libs: Seq<Library>,
    paths: InstalledPaths,
    os: Os,
    j: Seq<char>,
)
    requires
        library_jars(libs, paths.libraries_dir@, os).contains(j),
    ensures
        exists|k: int|
            0 <= k < libraries_tasks(libs, paths, os).len() && (#[trigger] libraries_tasks(
                libs,
                paths,
                os,
            )[k]).1 == j,
    decreases libs.len(),
{
    let init = libs.drop_last();
    let head = library_jars(init, paths.libraries_dir@, os);
    let tasks_init = libraries_tasks(init, paths, os);
    let all = libraries_tasks(libs, paths, os);
    assert(all == tasks_init + library_tasks(libs.last(), paths, os));
    if head.contains(j) {
        lemma_classpath_jars_downloaded(init, paths, os, j);
        let k = choose|k: int| 0 <= k < tasks_init.len() && (#[trigger] tasks_init[k]).1 == j;
        assert(all[k] == tasks_init[k]);
    } else {
        let idx = choose|i: int| 0 <= i < library_jars(libs, paths.libraries_dir@, os).len()
            && library_jars(libs, paths.libraries_dir@, os)[i] == j;
        assert(library_jar(libs.last(), paths.libraries_dir@, os) is Some);
        if idx < head.len() {
            assert(head[idx] == j);
        }
        let k = tasks_init.len() as int;
        assert(all[k] == library_tasks(libs.last(), paths, os)[0]);
    }
}

/// The launcher's classpath names only files the Vanilla installer
/// downloads, at the same places: every classpath entry is the destination
/// of a task of the installation plan.
pub proof fn lemma_classpath_within_plan(
    detail: VersionDetail,
    asset_index: AssetIndex,
    paths: InstalledPaths,
    p: Platform,
    j: Seq<char>,
)
    requires
        launch_classpath(detail, paths, p).contains(j),
    ensures
        exists|k: int|
            0 <= k < vanilla_plan(detail, asset_index, paths, p.os).len() && (#[trigger] vanilla_plan(
                detail,
                asset_index,
                paths,
                p.os,
            )[k]).1 == j,
{
    let libs_jars = library_jars(detail.libraries@, paths.libraries_dir@, p.os);
    let lt = libraries_tasks(detail.libraries@, paths, p.os);
    let plan = vanilla_plan(detail, asset_index, paths, p.os);
    let i = choose|i: int| 0 <= i < launch_classpath(detail, paths, p).len() && launch_classpath(
        detail,
        paths,
        p,
    )[i] == j;
    if i < libs_jars.len() {
        assert(libs_jars[i] == j);
        lemma_classpath_jars_downloaded(detail.libraries@, paths, p.os, j);
        let k = choose|k: int| 0 <= k < lt.len() && (#[trigger] lt[k]).1 == j;
        assert(plan[k] == lt[k]);
    } else {
        assert(j == paths.client_jar@);
        assert(plan[lt.len() as int] == artifact_task(detail.downloads.client, paths.client_jar@));
    }
}

/// The natives jar the launcher extracts is the one the installer stored:
/// for an allowed library with a natives artifact whose file name can be
/// taken from its path, the extractor's jar path is the destination of the
/// library's natives download.
pub proof fn lemma_natives_jar_is_downloaded(lib: Library, paths: InstalledPaths, os: Os)
    requires
        library_allowed(lib, os),
        native_artifact(lib, os) matches Some((c, a)) && file_name(
            os,
            match a.path {
                Some(p) => p@,
                None => c + ".jar"@,
            },
        ) is Some,
    ensures
        library_tasks(lib, paths, os).len() > 0,
        native_jar_of(lib, paths.natives_dir@, os) == Some(library_tasks(lib, paths, os).last().1),
{
    let (c, a) = native_artifact(lib, os)->0;
    let nm = lib.natives->0;
    let cs = assoc_get(nm@, os_name(os))->0;
    assert(cs@ == c);
    assert(classifier_path(lib, c) == match a.path {
        Some(p) => Some(p@),
        None => None::<Seq<char>>,
    });
    assert(classifier_jar(c) == c + ".jar"@);
    assert(native_jar_name(c, classifier_path(lib, c), os) == native_leaf(c, a.path, os));
}

} // verus!
