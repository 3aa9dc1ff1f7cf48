//! The Java a Minecraft version requires, and the managed runtimes already
//! on disk. The version JSON's `javaVersion` is the source of truth; when it
//! is absent (versions before 1.17) Java 8 is used, which is what those
//! versions need.

use vstd::prelude::*;
use crate::minecraft::version::VersionDetail;
use crate::runtime::{ManagedRuntime, RequiredJava, RequiredJavaSource};

verus! {

/// Java major used when the version JSON declares none.
pub const FALLBACK_JAVA_MAJOR: u32 = 8;

/// The Java a version requires: the JSON's major, or Java 8 as fallback.
pub fn required_java_of(detail: &VersionDetail) -> (r: RequiredJava)
    ensures
        match detail.java_version {
            Some(jv) => r.major == jv.major_version && r.source == RequiredJavaSource::VersionJson,
            None => r.major == 8 && r.source == RequiredJavaSource::Fallback,
        },
{
    match &detail.java_version {
        Some(jv) => RequiredJava { major: jv.major_version, source: RequiredJavaSource::VersionJson },
        None => RequiredJava { major: FALLBACK_JAVA_MAJOR, source: RequiredJavaSource::Fallback },
    }
}

/// The managed runtime for `major` whose root folder is `home`: present
/// when the folder exists and a Java executable was found in it.
pub fn find_managed_runtime(
    major: u32,
    home: &str,
    home_exists: bool,
    java_path: Option<String>,
) -> (r: Option<ManagedRuntime>)
    ensures
        !home_exists ==> r is None,
        home_exists && java_path is None ==> r is None,
        home_exists && java_path is Some ==> (r matches Some(m) && m.major == major && m.java_path
            == java_path->0 && m.home@ == home@),
{
    if !home_exists {
        return None;
    }
    match java_path {
        Some(j) => Some(ManagedRuntime { major, java_path: j, home: home.to_owned() }),
        None => None,
    }
}

} // verus!
