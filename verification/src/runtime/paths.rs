//! On-disk layout of managed runtimes, all under the launcher's data
//! directory so that they travel with the installation.

use vstd::prelude::*;
use crate::launch::{java_bin, java_bin_name};
use crate::platform::{join, join_path, mojang_arch, mojang_arch_of, os_name, os_of_target, Os};
use crate::text::{decimal, push_decimal, string_from_chars};

verus! {

/// `<data>/runtimes`, where every managed runtime lives.
pub fn runtimes_dir(data_dir: &str, os: Os) -> (r: String)
    ensures
        r@ == join_path(os, data_dir@, "runtimes"@),
{
    join(os, data_dir, "runtimes")
}

/// Mojang's name of the operating system (the one `minecraft::version` uses).
pub fn current_os(target_os: &str) -> (r: &'static str)
    ensures
        r@ == os_name(os_of_target(target_os@)),
{
    crate::minecraft::version::current_os(target_os)
}

/// Mojang's architecture name (x64, arm64, x86, or "unknown") of a Rust
/// `target_arch` name (the caller passes `std::env::consts::ARCH`).
pub fn current_arch(target_arch: &str) -> (r: &'static str)
    ensures
        r@ == mojang_arch_of(target_arch@),
{
    mojang_arch(target_arch)
}

/// `<runtimes>/java-<major>`.
pub open spec fn runtime_home(os: Os, runtimes_dir: Seq<char>, major: u32) -> Seq<char> {
    join_path(os, runtimes_dir, "java-"@ + decimal(major as nat))
}

/// The folder reserved for one Java major.
pub fn runtime_home_for(runtimes_dir: &str, major: u32, os: Os) -> (r: String)
    ensures
        r@ == runtime_home(os, runtimes_dir@, major),
{
    let mut name: Vec<char> = Vec::new();
    name.push('j');
    name.push('a');
    name.push('v');
    name.push('a');
    name.push('-');
    push_decimal(&mut name, major);
    proof {
        reveal_strlit("java-");
        assert(name@ =~= "java-"@ + decimal(major as nat));
    }
    let n = string_from_chars(name.as_slice());
    join(os, runtimes_dir, n.as_str())
}

/// The Java executable below a runtime's root in Mojang's layout:
/// `bin\java.exe` on Windows, `jre.bundle/Contents/Home/bin/java` on macOS,
/// `bin/java` elsewhere.
pub open spec fn java_bin_rel(os: Os) -> Seq<char> {
    match os {
        Os::Windows => join_path(os, "bin"@, "java.exe"@),
        Os::Osx => join_path(
            os,
            join_path(os, join_path(os, join_path(os, "jre.bundle"@, "Contents"@), "Home"@), "bin"@),
            "java"@,
        ),
        Os::Linux => join_path(os, "bin"@, "java"@),
    }
}

pub fn java_bin_relative(os: Os) -> (r: String)
    ensures
        r@ == java_bin_rel(os),
{
    match os {
        Os::Windows => join(os, "bin", "java.exe"),
        Os::Osx => {
            let a = join(os, "jre.bundle", "Contents");
            let b = join(os, a.as_str(), "Home");
            let c = join(os, b.as_str(), "bin");
            join(os, c.as_str(), "java")
        },
        Os::Linux => join(os, "bin", "java"),
    }
}

/// The two places a runtime's Java may be: Mojang's layout first, then a
/// flat `<home>/bin/java` (other vendors).
pub open spec fn java_candidates_of(home: Seq<char>, os: Os) -> (Seq<char>, Seq<char>) {
    (join_path(os, home, java_bin_rel(os)), join_path(os, join_path(os, home, "bin"@), java_bin(os)))
}

pub fn java_candidates(home: &str, os: Os) -> (r: (String, String))
    ensures
        (r.0@, r.1@) == java_candidates_of(home@, os),
{
    let rel = java_bin_relative(os);
    let layout = join(os, home, rel.as_str());
    let bin = join(os, home, "bin");
    let flat = join(os, bin.as_str(), java_bin_name(os));
    (layout, flat)
}

/// The Java executable of a runtime, given which of its two candidate
/// places exist.
pub fn java_executable_in(home: &str, os: Os, layout_exists: bool, flat_exists: bool) -> (r: Option<
    String,
>)
    ensures
        layout_exists ==> (r matches Some(p) && p@ == java_candidates_of(home@, os).0),
        !layout_exists && flat_exists ==> (r matches Some(p) && p@ == java_candidates_of(home@, os).1),
        !layout_exists && !flat_exists ==> r is None,
{
    let (layout, flat) = java_candidates(home, os);
    if layout_exists {
        return Some(layout);
    }
    if flat_exists {
        return Some(flat);
    }
    None
}

} // verus!
