//! Domain model of a Minecraft instance. Each instance is a self-contained
//! record, stored as TOML, with a light summary kept in the index.

pub mod commands;
pub mod store;

use vstd::prelude::*;
use crate::text::{copy_opt_string};

verus! {

#[derive(Clone, Copy, Debug, PartialEq, Eq, Structural)]
pub enum Loader {
    Vanilla,
    Fabric,
    Forge,
    NeoForge,
}

impl Default for Loader {
    fn default() -> (r: Self)
        ensures
            r == Loader::Vanilla,
    {
        Loader::Vanilla
    }
}

#[derive(Clone, Copy, Debug, PartialEq, Eq, Structural)]
pub enum InstallStatus {
    Created,
    Installing,
    Cancelled,
    Ready,
    Error,
    Corrupt,
}

impl Default for InstallStatus {
    fn default() -> (r: Self)
        ensures
            r == InstallStatus::Created,
    {
        InstallStatus::Created
    }
}

/// Reserved for a later phase; not used yet.
#[derive(Clone, Copy, Debug)]
pub struct InstanceSettings {
    pub resolution_width: Option<u32>,
    pub resolution_height: Option<u32>,
    pub fullscreen: bool,
}

impl Default for InstanceSettings {
    fn default() -> (r: Self)
        ensures
            r.resolution_width is None && r.resolution_height is None && !r.fullscreen,
    {
        InstanceSettings { resolution_width: None, resolution_height: None, fullscreen: false }
    }
}

/// Reserved for Modrinth / CurseForge; not implemented yet.
#[derive(Debug)]
pub struct Modpack {
    pub source: Option<String>,
    pub project_id: Option<String>,
    pub version_id: Option<String>,
}

impl Default for Modpack {
    fn default() -> (r: Self)
        ensures
            r.source is None && r.project_id is None && r.version_id is None,
    {
        Modpack { source: None, project_id: None, version_id: None }
    }
}

/// The bit pattern of the `f32` value `0.0`.
pub open spec fn progress_zero() -> u32 {
    0u32
}

/// The bit pattern of the `f32` value `1.0`.
pub open spec fn progress_one() -> u32 {
    0x3F80_0000u32
}

/// Persisted installation state, to recover if the launcher closes. The
/// progress fraction (an `f32`) is held as its IEEE-754 bit pattern
/// (`f32::to_bits`), so it round-trips without loss.
#[derive(Debug)]
pub struct Installation {
    pub current_phase: String,
    pub progress_bits: u32,
}

impl Default for Installation {
    fn default() -> (r: Self)
        ensures
            r.current_phase@ == Seq::<char>::empty() && r.progress_bits == progress_zero(),
    {
        Installation { current_phase: String::new(), progress_bits: 0 }
    }
}

#[derive(Debug)]
pub struct Instance {
    pub id: String,
    pub name: String,
    pub mc_version: String,
    pub loader: Loader,
    pub loader_version: Option<String>,
    pub ram_mb: u32,
    pub path: String,
    pub icon: Option<String>,
    pub java_path: Option<String>,
    /// Java major recommended by the version.
    pub java_major: Option<u32>,
    pub favorite: bool,
    pub created_at: i64,
    pub last_played: Option<i64>,
    pub playtime_secs: u64,
    pub mod_count: u32,
    pub status: InstallStatus,
    pub installed_at: Option<i64>,
    pub total_size_bytes: u64,
    pub last_error: Option<String>,
    pub settings: InstanceSettings,
    pub modpack: Modpack,
    pub installation: Installation,
}

/// Light summary for the index.
#[derive(Debug)]
pub struct InstanceSummary {
    pub id: String,
    pub name: String,
    pub mc_version: String,
    pub loader: Loader,
    pub ram_mb: u32,
    pub icon: Option<String>,
    pub last_played: Option<i64>,
    pub playtime_secs: u64,
    pub mod_count: u32,
    pub favorite: bool,
    pub status: InstallStatus,
    pub total_size_bytes: u64,
}

/// The summary of an instance.
pub open spec fn summary_of(i: Instance) -> InstanceSummary {
    InstanceSummary {
        id: i.id,
        name: i.name,
        mc_version: i.mc_version,
        loader: i.loader,
        ram_mb: i.ram_mb,
        icon: i.icon,
        last_played: i.last_played,
        playtime_secs: i.playtime_secs,
        mod_count: i.mod_count,
        favorite: i.favorite,
        status: i.status,
        total_size_bytes: i.total_size_bytes,
    }
}

impl InstanceSummary {
    pub fn of(i: &Instance) -> (r: Self)
        ensures
            r == summary_of(*i),
    {
        InstanceSummary {
            id: i.id.clone(),
            name: i.name.clone(),
            mc_version: i.mc_version.clone(),
            loader: i.loader,
            ram_mb: i.ram_mb,
            icon: copy_opt_string(&i.icon),
            last_played: i.last_played,
            playtime_secs: i.playtime_secs,
            mod_count: i.mod_count,
            favorite: i.favorite,
            status: i.status,
            total_size_bytes: i.total_size_bytes,
        }
    }
}

impl Modpack {
    pub fn copy(&self) -> (r: Self)
        ensures
            r == *self,
    {
        Modpack {
            source: copy_opt_string(&self.source),
            project_id: copy_opt_string(&self.project_id),
            version_id: copy_opt_string(&self.version_id),
        }
    }
}

impl Installation {
    pub fn copy(&self) -> (r: Self)
        ensures
            r == *self,
    {
        Installation { current_phase: self.current_phase.clone(), progress_bits: self.progress_bits }
    }
}

impl Instance {
    pub fn copy(&self) -> (r: Self)
        ensures
            r == *self,
    {
        Instance {
            id: self.id.clone(),
            name: self.name.clone(),
            mc_version: self.mc_version.clone(),
            loader: self.loader,
            loader_version: copy_opt_string(&self.loader_version),
            ram_mb: self.ram_mb,
            path: self.path.clone(),
            icon: copy_opt_string(&self.icon),
            java_path: copy_opt_string(&self.java_path),
            java_major: self.java_major,
            favorite: self.favorite,
            created_at: self.created_at,
            last_played: self.last_played,
            playtime_secs: self.playtime_secs,
            mod_count: self.mod_count,
            status: self.status,
            installed_at: self.installed_at,
            total_size_bytes: self.total_size_bytes,
            last_error: copy_opt_string(&self.last_error),
            settings: self.settings,
            modpack: self.modpack.copy(),
            installation: self.installation.copy(),
        }
    }
}

impl From<&Instance> for InstanceSummary {
    fn from(i: &Instance) -> (r: Self) {
        InstanceSummary::of(i)
    }
}

impl vstd::std_specs::convert::FromSpecImpl<&Instance> for InstanceSummary {
    open spec fn obeys_from_spec() -> bool {
        true
    }

    open spec fn from_spec(v: &Instance) -> Self {
        summary_of(*v)
    }
}

} // verus!
