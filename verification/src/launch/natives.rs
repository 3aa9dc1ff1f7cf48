//! Which native libraries to extract into an instance's natives folder:
//! the natives jars the installer downloaded there, and inside each jar the
//! binaries of the platform (`.dll`, `.dylib`, `.so`), flattened.

use vstd::prelude::*;
use crate::assoc::{assoc_get, find_key};
use crate::minecraft::version::{library_allowed, Library, VersionDetail};
use crate::platform::{file_name, join, join_path, path_file_name, Os, Platform, os_name};
use crate::text::{
    ascii_lower, ascii_lower_exec, chars_of, ends_with, has_prefix, has_suffix, starts_with, views,
};

verus! {

/// Extension of native binaries: `.dll` on Windows, `.dylib` on macOS,
/// `.so` elsewhere.
pub open spec fn native_ext(os: Os) -> Seq<char> {
    match os {
        Os::Windows => ".dll"@,
        Os::Osx => ".dylib"@,
        Os::Linux => ".so"@,
    }
}

pub fn native_extension(os: Os) -> (r: &'static str)
    ensures
        r@ == native_ext(os),
{
    match os {
        Os::Windows => ".dll",
        Os::Osx => ".dylib",
        Os::Linux => ".so",
    }
}

/// `<classifier>.jar`.
pub open spec fn classifier_jar(classifier: Seq<char>) -> Seq<char> {
    classifier + ".jar"@
}

/// The natives jar's file name as the installer stored it: the last
/// component of the artifact's path, or `<classifier>.jar`.
pub open spec fn native_jar_name(classifier: Seq<char>, art_path: Option<Seq<char>>, os: Os) -> Seq<
    char,
> {
    let fname = match art_path {
        Some(p) => p,
        None => classifier_jar(classifier),
    };
    match file_name(os, fname) {
        Some(n) => n,
        None => classifier_jar(classifier),
    }
}

fn jar_of(classifier: &str) -> (r: String)
    ensures
        r@ == classifier_jar(classifier@),
{
    let mut r = classifier.to_owned();
    r.append(".jar");
    r
}

pub fn native_jar_filename(classifier: &str, art_path: &Option<String>, os: Os) -> (r: String)
    ensures
        r@ == native_jar_name(
            classifier@,
            match *art_path {
                Some(p) => Some(p@),
                None => None,
            },
            os,
        ),
{
    let fname = match art_path {
        Some(p) => p.clone(),
        None => jar_of(classifier),
    };
    match path_file_name(os, fname.as_str()) {
        Some(n) => n,
        None => jar_of(classifier),
    }
}

/// The file a natives jar entry is extracted to, if any: directories,
/// `META-INF/` entries and entries whose name does not end (ignoring ASCII
/// case) with the platform's extension are skipped; the rest keep only
/// their last component.
pub open spec fn native_entry(name: Seq<char>, is_dir: bool, os: Os) -> Option<Seq<char>> {
    if is_dir || has_prefix(name, "META-INF/"@) || !has_suffix(
        name.map_values(|c: char| ascii_lower(c)),
        native_ext(os),
    ) {
        None
    } else {
        file_name(os, name)
    }
}

pub fn native_entry_leaf(name: &str, is_dir: bool, os: Os) -> (r: Option<String>)
    ensures
        match r {
            Some(s) => native_entry(name@, is_dir, os) == Some(s@),
            None => native_entry(name@, is_dir, os) is None,
        },
{
    if is_dir {
        return None;
    }
    let n = chars_of(name);
    let meta = chars_of("META-INF/");
    if starts_with(n.as_slice(), meta.as_slice()) {
        return None;
    }
    let mut lower: Vec<char> = Vec::new();
    let mut i: usize = 0;
    while i < n.len()
        invariant
            i <= n@.len(),
            lower@ == n@.take(i as int).map_values(|c: char| ascii_lower(c)),
        decreases n.len() - i,
    {
        lower.push(ascii_lower_exec(n[i]));
        assert(lower@ =~= n@.take(i + 1).map_values(|c: char| ascii_lower(c)));
        i = i + 1;
    }
    assert(n@.take(n@.len() as int) =~= n@);
    let ext = chars_of(native_extension(os));
    if !ends_with(lower.as_slice(), ext.as_slice()) {
        return None;
    }
    path_file_name(os, name)
}

/// The path of the artifact the metadata gives for the library's classifier.
pub open spec fn classifier_path(lib: Library, classifier: Seq<char>) -> Option<Seq<char>> {
    match lib.downloads {
        Some(dl) => match dl.classifiers {
            Some(m) => match assoc_get(m@, classifier) {
                Some(a) => match a.path {
                    Some(p) => Some(p@),
                    None => None,
                },
                None => None,
            },
            None => None,
        },
        None => None,
    }
}

/// The natives jar of a library, for an allowed library that has a native
/// for the platform's operating system.
pub open spec fn native_jar_of(lib: Library, natives_dir: Seq<char>, os: Os) -> Option<Seq<char>> {
    if !library_allowed(lib, os) {
        None
    } else {
        match lib.natives {
            Some(m) => match assoc_get(m@, os_name(os)) {
                Some(c) => Some(
                    join_path(os, natives_dir, native_jar_name(c@, classifier_path(lib, c@), os)),
                ),
                None => None,
            },
            None => None,
        }
    }
}

/// The natives jars of a version's libraries, in library order.
pub open spec fn native_jars_of(libs: Seq<Library>, natives_dir: Seq<char>, os: Os) -> Seq<
    Seq<char>,
>
    decreases libs.len(),
{
    if libs.len() == 0 {
        Seq::empty()
    } else {
        native_jars_of(libs.drop_last(), natives_dir, os) + match native_jar_of(
            libs.last(),
            natives_dir,
            os,
        ) {
            Some(j) => seq![j],
            None => Seq::empty(),
        }
    }
}

fn classifier_art_path(lib: &Library, classifier: &str) -> (r: Option<String>)
    ensures
        match r {
            Some(s) => classifier_path(*lib, classifier@) == Some(s@),
            None => classifier_path(*lib, classifier@) is None,
        },
{
    match &lib.downloads {
        Some(dl) => match &dl.classifiers {
            Some(m) => match find_key(m, classifier) {
                Some(i) => match &m[i].1.path {
                    Some(p) => Some(p.clone()),
                    None => None,
                },
                None => None,
            },
            None => None,
        },
        None => None,
    }
}

/// The natives jars to extract, in library order. Each one that exists on
/// disk is extracted; the others are skipped.
pub fn native_jars(detail: &VersionDetail, natives_dir: &str, p: &Platform) -> (r: Vec<String>)
    requires
        detail.wf(),
    ensures
        views(r@) == native_jars_of(detail.libraries@, natives_dir@, p.os),
{
    let libs = &detail.libraries;
    let mut out: Vec<String> = Vec::new();
    let mut i: usize = 0;
    while i < libs.len()
        invariant
            i <= libs@.len(),
            views(out@) == native_jars_of(libs@.take(i as int), natives_dir@, p.os),
        decreases libs.len() - i,
    {
        let lib = &libs[i];
        proof {
            assert(libs@.take(i + 1).drop_last() =~= libs@.take(i as int));
            assert(libs@.take(i + 1).last() == libs@[i as int]);
        }
        let ghost before = out@;
        if lib.allowed(p) {
            if let Some(classifier) = lib.native_classifier(p) {
                let art_path = classifier_art_path(lib, classifier.as_str());
                let name = native_jar_filename(classifier.as_str(), &art_path, p.os);
                out.push(join(p.os, natives_dir, name.as_str()));
            }
        }
        assert(views(out@) =~= views(before) + match native_jar_of(*lib, natives_dir@, p.os) {
            Some(j) => seq![j],
            None => Seq::empty(),
        });
        i = i + 1;
    }
    assert(libs@.take(libs@.len() as int) =~= libs@);
    out
}

} // verus!
