//! The install life cycle of an instance: the state it is put in when an
//! installation starts, and the state, event and answer each outcome leads to.

use vstd::prelude::*;
use crate::error::{error_message, msg, AetherError};
use crate::install::InstallEvent;
use crate::instance::{progress_one, progress_zero, Instance, InstallStatus};

verus! {

/// The instance is unchanged except for the listed fields.
pub open spec fn same_record_except_install(a: Instance, b: Instance) -> bool {
    &&& a.id == b.id
    &&& a.name == b.name
    &&& a.mc_version == b.mc_version
    &&& a.loader == b.loader
    &&& a.loader_version == b.loader_version
    &&& a.ram_mb == b.ram_mb
    &&& a.path == b.path
    &&& a.icon == b.icon
    &&& a.java_path == b.java_path
    &&& a.java_major == b.java_major
    &&& a.favorite == b.favorite
    &&& a.created_at == b.created_at
    &&& a.last_played == b.last_played
    &&& a.playtime_secs == b.playtime_secs
    &&& a.mod_count == b.mod_count
    &&& a.settings == b.settings
    &&& a.modpack == b.modpack
}

/// An installation starts: status `Installing`, phase "starting", progress
/// 0, no last error.
pub fn begin_install(inst: Instance) -> (r: Instance)
    ensures
        same_record_except_install(inst, r),
        r.status == InstallStatus::Installing,
        r.installation.current_phase@ == "starting"@,
        r.installation.progress_bits == progress_zero(),
        r.last_error is None,
        r.installed_at == inst.installed_at,
        r.total_size_bytes == inst.total_size_bytes,
{
    let mut inst = inst;
    inst.status = InstallStatus::Installing;
    inst.installation.current_phase = "starting".to_owned();
    inst.installation.progress_bits = 0;
    inst.last_error = None;
    inst
}

/// The state an outcome leads to. `result` is the installer's answer (the
/// bytes installed, or the error); `cancelled` tells whether the
/// installation was cancelled; `now` is the time of the end.
pub fn finish_install(
    inst: Instance,
    result: Result<u64, AetherError>,
    cancelled: bool,
    now: i64,
) -> (r: (Instance, InstallEvent, Result<(), AetherError>))
    ensures
        same_record_except_install(inst, r.0),
        r.0.status == settled_status(result is Ok, cancelled),
        match result {
            Ok(bytes) => {
                &&& r.0.status == InstallStatus::Ready
                &&& r.0.installed_at == Some(now)
                &&& r.0.total_size_bytes == bytes
                &&& r.0.installation.current_phase@ == "done"@
                &&& r.0.installation.progress_bits == progress_one()
                &&& r.0.last_error == inst.last_error
                &&& r.1 is Done
                &&& r.2 is Ok
            },
            Err(e) => if cancelled {
                &&& r.0.status == InstallStatus::Cancelled
                &&& r.0.installation.current_phase@ == "cancelled"@
                &&& r.0.installation.progress_bits == inst.installation.progress_bits
                &&& r.0.installed_at == inst.installed_at
                &&& r.0.total_size_bytes == inst.total_size_bytes
                &&& r.0.last_error == inst.last_error
                &&& r.1 is Cancelled
                &&& r.2 is Ok
            } else {
                &&& r.0.status == InstallStatus::Error
                &&& r.0.last_error matches Some(m) && m@ == error_message(e)
                &&& r.0.installation.current_phase@ == "error"@
                &&& r.0.installation.progress_bits == inst.installation.progress_bits
                &&& r.0.installed_at == inst.installed_at
                &&& r.0.total_size_bytes == inst.total_size_bytes
                &&& r.1 matches InstallEvent::Failed { message } && message@ == error_message(e)
                &&& r.2 matches Err(AetherError::InvalidState(m)) && m@ == error_message(e)
            },
        },
{
    let mut inst = inst;
    match result {
        Ok(bytes) => {
            inst.status = InstallStatus::Ready;
            inst.installed_at = Some(now);
            inst.total_size_bytes = bytes;
            inst.installation.current_phase = "done".to_owned();
            inst.installation.progress_bits = 0x3F80_0000;
            (inst, InstallEvent::Done, Ok(()))
        },
        Err(e) => {
            if cancelled {
                inst.status = InstallStatus::Cancelled;
                inst.installation.current_phase = "cancelled".to_owned();
                (inst, InstallEvent::Cancelled, Ok(()))
            } else {
                let m = e.message();
                inst.status = InstallStatus::Error;
                inst.last_error = Some(m.clone());
                inst.installation.current_phase = "error".to_owned();
                let answer = Err(AetherError::InvalidState(m.clone()));
                (inst, InstallEvent::Failed { message: m }, answer)
            }
        },
    }
}

/// The status an installation ends in: `Ready` when the installer
/// succeeded, `Cancelled` when it failed after a cancellation, `Error`
/// otherwise.
pub open spec fn settled_status(succeeded: bool, cancelled: bool) -> InstallStatus {
    if succeeded {
        InstallStatus::Ready
    } else if cancelled {
        InstallStatus::Cancelled
    } else {
        InstallStatus::Error
    }
}

/// Every outcome leaves the instance settled: ready, cancelled or in error,
/// never still installing (nor created or corrupt).
pub proof fn lemma_install_always_settles(succeeded: bool, cancelled: bool)
    ensures
        settled_status(succeeded, cancelled) == InstallStatus::Ready || settled_status(
            succeeded,
            cancelled,
        ) == InstallStatus::Cancelled || settled_status(succeeded, cancelled)
            == InstallStatus::Error,
        settled_status(succeeded, cancelled) != InstallStatus::Installing,
{
}

/// The answer to cancelling an instance that has no installation running.
pub fn no_active_install(id: &str) -> (r: AetherError)
    ensures
        r matches AetherError::NotFound(m) && m@ == "no hay instalacion activa para "@ + id@,
{
    AetherError::NotFound(msg("no hay instalacion activa para ", id))
}

} // verus!
