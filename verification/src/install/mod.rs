//! Installers: the common contract for every loader. Vanilla is complete;
//! Fabric, Forge and NeoForge are announced but not available yet.

pub mod commands;
pub mod vanilla;

use vstd::prelude::*;
use crate::error::AetherError;
use crate::instance::Loader;

verus! {

/// Events an installation reports to the interface.
pub enum InstallEvent {
    Started { total_files: u64, total_bytes: u64 },
    Phase { phase: String },
    Progress {
        files_done: u64,
        total_files: u64,
        bytes_done: u64,
        total_bytes: u64,
        current_file: String,
        speed_bps: u64,
    },
    Done,
    Cancelled,
    Failed { message: String },
}

/// The message of a loader whose installer is not available yet.
pub open spec fn not_yet_message(loader: Loader) -> Seq<char> {
    match loader {
        Loader::Vanilla => Seq::empty(),
        Loader::Fabric => "el instalador de Fabric llegara en una fase posterior"@,
        Loader::Forge => "el instalador de Forge llegara en una fase posterior"@,
        Loader::NeoForge => "el instalador de NeoForge llegara en una fase posterior"@,
    }
}

/// Routes to the installer of the instance's loader: only Vanilla has one;
/// the others are `NotImplemented`.
pub fn installer_for(loader: Loader) -> (r: Result<(), AetherError>)
    ensures
        loader == Loader::Vanilla ==> r is Ok,
        loader != Loader::Vanilla ==> (r matches Err(AetherError::NotImplemented(m)) && m@
            == not_yet_message(loader)),
{
    match loader {
        Loader::Vanilla => Ok(()),
        Loader::Fabric => Err(
            AetherError::NotImplemented(
                "el instalador de Fabric llegara en una fase posterior".to_owned(),
            ),
        ),
        Loader::Forge => Err(
            AetherError::NotImplemented(
                "el instalador de Forge llegara en una fase posterior".to_owned(),
            ),
        ),
        Loader::NeoForge => Err(
            AetherError::NotImplemented(
                "el instalador de NeoForge llegara en una fase posterior".to_owned(),
            ),
        ),
    }
}

} // verus!
