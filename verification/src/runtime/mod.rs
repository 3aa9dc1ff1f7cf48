//! Runtime manager: the Java runtimes each Minecraft version needs, managed
//! by the launcher itself, without relying on `JAVA_HOME`, `PATH` or manual
//! installs.

pub mod commands;
pub mod detect;
pub mod install;
pub mod manifest;
pub mod paths;

use vstd::prelude::*;

verus! {

/// The Java a version requires, as the detector resolved it.
#[derive(Clone, Copy, Debug)]
pub struct RequiredJava {
    /// Major Java version (8, 16, 17, 21, ...).
    pub major: u32,
    /// Where the figure came from.
    pub source: RequiredJavaSource,
}

#[derive(Clone, Copy, Debug, PartialEq, Eq, Structural)]
pub enum RequiredJavaSource {
    /// `javaVersion.majorVersion` was present in the version JSON.
    VersionJson,
    /// The version JSON declares no Java (old versions): Java 8.
    Fallback,
}

/// A managed Java runtime present on disk.
#[derive(Debug)]
pub struct ManagedRuntime {
    pub major: u32,
    /// The Java executable.
    pub java_path: String,
    /// The runtime's root folder (the one holding `bin/`).
    pub home: String,
}

/// Which Java an instance needs and whether it is already available.
#[derive(Debug)]
pub struct RuntimeResolution {
    pub required: RequiredJava,
    pub managed: Option<ManagedRuntime>,
    /// A managed runtime is ready to use.
    pub ready: bool,
}

/// Progress events of a runtime download.
pub enum RuntimeEvent {
    Started { major: u32, version: String, total_files: u64, total_bytes: u64 },
    Phase { phase: String },
    Progress {
        files_done: u64,
        total_files: u64,
        bytes_done: u64,
        total_bytes: u64,
        current_file: String,
        speed_bps: u64,
    },
    Done { major: u32, java_path: String },
    Failed { message: String },
}

} // verus!
