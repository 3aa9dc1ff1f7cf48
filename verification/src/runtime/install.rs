//! Installing a managed Java runtime: what the component's manifest turns
//! into (folders to create, files to fetch, files to mark executable,
//! symlinks to make), planned for the shared download engine.

use vstd::prelude::*;
use crate::download::DownloadTask;
use crate::error::AetherError;
use crate::install::vanilla::task_views;
use crate::platform::{join, join_path, Os};
use crate::runtime::manifest::{FileEntry, RuntimeManifest};
use crate::text::{decimal, push_decimal, string_from_chars, views};

verus! {

/// What a runtime's manifest asks for, with every path under the runtime's
/// root.
pub struct RuntimePlan {
    pub directories: Vec<String>,
    pub tasks: Vec<DownloadTask>,
    pub executables: Vec<String>,
    /// Link path and its target, as the manifest gives it.
    pub links: Vec<(String, String)>,
}

/// Folders of the manifest's entries, in order.
pub open spec fn plan_dirs(home: Seq<char>, files: Seq<(String, FileEntry)>, os: Os) -> Seq<Seq<char>>
    decreases files.len(),
{
    if files.len() == 0 {
        Seq::empty()
    } else {
        plan_dirs(home, files.drop_last(), os) + match files.last().1 {
            FileEntry::Directory => seq![join_path(os, home, files.last().0@)],
            _ => Seq::empty(),
        }
    }
}

/// Downloads of the manifest's files (their uncompressed form), in order.
pub open spec fn plan_tasks(home: Seq<char>, files: Seq<(String, FileEntry)>, os: Os) -> Seq<(Seq<char>, Seq<char>, Option<Seq<char>>, u64)>
    decreases files.len(),
{
    if files.len() == 0 {
        Seq::empty()
    } else {
        plan_tasks(home, files.drop_last(), os) + match files.last().1 {
            FileEntry::File { downloads, .. } => seq![
                (
                    downloads.raw.url@,
                    join_path(os, home, files.last().0@),
                    Some(downloads.raw.sha1@),
                    downloads.raw.size,
                ),
            ],
            _ => Seq::empty(),
        }
    }
}

/// Files marked executable, in order.
pub open spec fn plan_execs(home: Seq<char>, files: Seq<(String, FileEntry)>, os: Os) -> Seq<Seq<char>>
    decreases files.len(),
{
    if files.len() == 0 {
        Seq::empty()
    } else {
        plan_execs(home, files.drop_last(), os) + match files.last().1 {
            FileEntry::File { executable, .. } => if executable {
                seq![join_path(os, home, files.last().0@)]
            } else {
                Seq::empty()
            },
            _ => Seq::empty(),
        }
    }
}

/// Each download planned for a runtime is the raw form of one of the
/// manifest's files, taken whole: its url, hash and size are those of
/// `downloads.raw` (whatever the compressed form holds), and it lands at
/// that file's path under `home`.
pub proof fn lemma_runtime_task_is_raw_download(
    home: Seq<char>,
    files: Seq<(String, FileEntry)>,
    os: Os,
    k: int,
)
    requires
        0 <= k < plan_tasks(home, files, os).len(),
    ensures
        exists|j: int|
            0 <= j < files.len() && ((#[trigger] files[j]).1 matches FileEntry::File { downloads, .. }
                && plan_tasks(home, files, os)[k] == (
                downloads.raw.url@,
                join_path(os, home, files[j].0@),
                Some(downloads.raw.sha1@),
                downloads.raw.size,
            )),
    decreases files.len(),
{
    let init = plan_tasks(home, files.drop_last(), os);
    if k < init.len() {
        lemma_runtime_task_is_raw_download(home, files.drop_last(), os, k);
        let j = choose|j: int|
            0 <= j < files.drop_last().len() && ((#[trigger] files.drop_last()[j]).1 matches FileEntry::File {
                downloads,
                ..
            } && init[k] == (
                downloads.raw.url@,
                join_path(os, home, files.drop_last()[j].0@),
                Some(downloads.raw.sha1@),
                downloads.raw.size,
            ));
        assert(files[j] == files.drop_last()[j]);
        assert(plan_tasks(home, files, os)[k] == init[k]);
    } else {
        let j = files.len() - 1;
        assert(files[j] == files.last());
    }
}

/// Every file of a runtime's manifest is downloaded in its raw form: the
/// plan holds a task with the raw url, hash and size, at the file's path.
pub proof fn lemma_runtime_file_is_downloaded(
    home: Seq<char>,
    files: Seq<(String, FileEntry)>,
    os: Os,
    j: int,
)
    requires
        0 <= j < files.len(),
        files[j].1 is File,
    ensures
        plan_tasks(home, files, os).contains(
            (
                files[j].1->File_downloads.raw.url@,
                join_path(os, home, files[j].0@),
                Some(files[j].1->File_downloads.raw.sha1@),
                files[j].1->File_downloads.raw.size,
            ),
        ),
    decreases files.len(),
{
    let init = plan_tasks(home, files.drop_last(), os);
    if j < files.len() - 1 {
        assert(files.drop_last()[j] == files[j]);
        lemma_runtime_file_is_downloaded(home, files.drop_last(), os, j);
        let x = (
            files[j].1->File_downloads.raw.url@,
            join_path(os, home, files[j].0@),
            Some(files[j].1->File_downloads.raw.sha1@),
            files[j].1->File_downloads.raw.size,
        );
        let i = choose|i: int| 0 <= i < init.len() && init[i] == x;
        assert(plan_tasks(home, files, os)[i] == x);
    } else {
        assert(files[j] == files.last());
        assert(plan_tasks(home, files, os)[init.len() as int] == (
            files[j].1->File_downloads.raw.url@,
            join_path(os, home, files[j].0@),
            Some(files[j].1->File_downloads.raw.sha1@),
            files[j].1->File_downloads.raw.size,
        ));
    }
}

/// Symlinks (path and target), in order.
pub open spec fn plan_links(home: Seq<char>, files: Seq<(String, FileEntry)>, os: Os) -> Seq<(Seq<char>, Seq<char>)>
    decreases files.len(),
{
    if files.len() == 0 {
        Seq::empty()
    } else {
        plan_links(home, files.drop_last(), os) + match files.last().1 {
            FileEntry::Link { target } => seq![(join_path(os, home, files.last().0@), target@)],
            _ => Seq::empty(),
        }
    }
}

pub open spec fn link_views(v: Seq<(String, String)>) -> Seq<(Seq<char>, Seq<char>)> {
    v.map_values(|p: (String, String)| (p.0@, p.1@))
}

/// Plans a runtime's files below its root folder `home`.
pub fn plan_runtime_files(home: &str, manifest: &RuntimeManifest, os: Os) -> (r: RuntimePlan)
    requires
        manifest.wf(),
    ensures
        views(r.directories@) == plan_dirs(home@, manifest.files@, os),
        task_views(r.tasks@) == plan_tasks(home@, manifest.files@, os),
        views(r.executables@) == plan_execs(home@, manifest.files@, os),
        link_views(r.links@) == plan_links(home@, manifest.files@, os),
{
    let mut plan = RuntimePlan {
        directories: Vec::new(),
        tasks: Vec::new(),
        executables: Vec::new(),
        links: Vec::new(),
    };
    let files = &manifest.files;
    let mut i: usize = 0;
    while i < files.len()
        invariant
            i <= files@.len(),
            views(plan.directories@) == plan_dirs(home@, files@.take(i as int), os),
            task_views(plan.tasks@) == plan_tasks(home@, files@.take(i as int), os),
            views(plan.executables@) == plan_execs(home@, files@.take(i as int), os),
            link_views(plan.links@) == plan_links(home@, files@.take(i as int), os),
        decreases files.len() - i,
    {
        proof {
            assert(files@.take(i + 1).drop_last() =~= files@.take(i as int));
            assert(files@.take(i + 1).last() == files@[i as int]);
        }
        let ghost d0 = plan.directories@;
        let ghost t0 = plan.tasks@;
        let ghost e0 = plan.executables@;
        let ghost l0 = plan.links@;
        let dest = join(os, home, files[i].0.as_str());
        match &files[i].1 {
            FileEntry::Directory => {
                plan.directories.push(dest);
            },
            FileEntry::Link { target } => {
                plan.links.push((dest, target.clone()));
            },
            FileEntry::File { executable, downloads } => {
                if *executable {
                    plan.executables.push(dest.clone());
                }
                plan.tasks.push(
                    DownloadTask {
                        url: downloads.raw.url.clone(),
                        dest,
                        sha1: Some(downloads.raw.sha1.clone()),
                        size: downloads.raw.size,
                    },
                );
            },
        }
        assert(views(plan.directories@) =~= plan_dirs(home@, files@.take(i + 1), os));
        assert(task_views(plan.tasks@) =~= plan_tasks(home@, files@.take(i + 1), os));
        assert(views(plan.executables@) =~= plan_execs(home@, files@.take(i + 1), os));
        assert(link_views(plan.links@) =~= plan_links(home@, files@.take(i + 1), os));
        i = i + 1;
    }
    assert(files@.take(files@.len() as int) =~= files@);
    plan
}

/// The error when a runtime was downloaded but its Java executable is
/// missing.
pub fn runtime_missing(major: u32) -> (r: AetherError)
    ensures
        r matches AetherError::InvalidState(m) && m@ == "el runtime java-"@ + decimal(major as nat)
            + " se descargo pero no se encontro el ejecutable"@,
{
    let mut d: Vec<char> = Vec::new();
    push_decimal(&mut d, major);
    assert(d@ =~= decimal(major as nat));
    let mut m = "el runtime java-".to_owned();
    let ds = string_from_chars(d.as_slice());
    m.append(ds.as_str());
    m.append(" se descargo pero no se encontro el ejecutable");
    AetherError::InvalidState(m)
}

/// The error of providing a runtime for `major` when the download failed
/// with `e`: an index without a runtime for the platform (`NotFound`) reads
/// as no compatible runtime; every other error is passed on unchanged.
pub fn provision_error(major: u32, e: AetherError) -> (r: AetherError)
    ensures
        match e {
            AetherError::NotFound(m) => r matches AetherError::InvalidState(x) && x@
                == "no hay un runtime de Java "@ + decimal(major as nat)
                + " compatible con esta plataforma: "@ + m@,
            _ => r == e,
        },
{
    match e {
        AetherError::NotFound(m) => {
            let mut d: Vec<char> = Vec::new();
            push_decimal(&mut d, major);
            assert(d@ =~= decimal(major as nat));
            let mut x = "no hay un runtime de Java ".to_owned();
            let ds = string_from_chars(d.as_slice());
            x.append(ds.as_str());
            x.append(" compatible con esta plataforma: ");
            x.append(m.as_str());
            AetherError::InvalidState(x)
        },
        other => other,
    }
}

} // verus!
