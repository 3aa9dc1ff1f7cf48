//! The instance operations behind the interface: every change is computed
//! here and then stored by the caller, which also keeps the index in memory.

use vstd::prelude::*;
use crate::error::AetherError;
use crate::instance::store::{instances_dir_of};
use crate::instance::{
    summary_of, Installation, InstallStatus, Instance, InstanceSettings, InstanceSummary, Loader,
    Modpack, progress_zero,
};
use crate::platform::{join, join_path, Os};
use crate::text::{chars_of, copy_opt_string, str_eq, string_from_chars, trim, trim_exec};

verus! {

/// `std::time::SystemTime`, carried opaque from the clock to the epoch
/// conversion.
#[verifier::external_type_specification]
#[verifier::external_body]
pub struct ExSystemTime(std::time::SystemTime);

/// `SystemTime::now`: the current time of the system clock. It depends on
/// the moment of the call, so nothing is stated of it.
#[verifier::external_body]
fn clock_now() -> std::time::SystemTime {
    std::time::SystemTime::now()
}

/// `SystemTime::duration_since(UNIX_EPOCH)`, in whole seconds (`None` for a
/// time before the epoch). Nothing is stated: the time is opaque here.
#[verifier::external_body]
fn whole_secs_since_epoch(t: &std::time::SystemTime) -> Option<u64> {
    t.duration_since(std::time::UNIX_EPOCH).ok().map(|d| d.as_secs())
}

/// Seconds since the epoch as the launcher stores them: the value as an
/// `i64` (wrapping like `as`), or 0 when the clock is before the epoch.
pub open spec fn epoch_seconds(secs: Option<u64>) -> i64 {
    match secs {
        Some(s) => s as i64,
        None => 0,
    }
}

pub fn epoch_seconds_of(secs: Option<u64>) -> (r: i64)
    ensures
        r == epoch_seconds(secs),
{
    match secs {
        Some(s) => s as i64,
        None => 0,
    }
}

/// The current time in seconds since the epoch.
pub fn now() -> (r: i64)
    ensures
        exists|s: Option<u64>| r == epoch_seconds(s),
{
    let t = clock_now();
    let s = whole_secs_since_epoch(&t);
    epoch_seconds_of(s)
}

/// A lower-case hexadecimal digit.
pub open spec fn is_lower_hex(c: char) -> bool {
    ('0' <= c <= '9') || ('a' <= c <= 'f')
}

/// `Uuid::new_v4().simple().to_string()`: a fresh random UUID in the simple
/// format, which the uuid crate writes as 32 lower-case hex digits. Which
/// UUID comes out rests on chance and is not stated.
#[verifier::external_body]
fn random_uuid_simple() -> (r: String)
    ensures
        r@.len() == 32,
        forall|i: int| 0 <= i < 32 ==> is_lower_hex(#[trigger] r@[i]),
{
    uuid::Uuid::new_v4().simple().to_string()
}

/// A fresh instance id: 32 lower-case hex digits.
pub fn new_instance_id() -> (r: String)
    ensures
        r@.len() == 32,
        forall|i: int| 0 <= i < 32 ==> is_lower_hex(#[trigger] r@[i]),
{
    random_uuid_simple()
}

pub struct CreateInput {
    pub name: String,
    pub mc_version: String,
    pub loader: Loader,
    pub loader_version: Option<String>,
    pub ram_mb: Option<u32>,
    pub icon: Option<String>,
    pub java_path: Option<String>,
}

/// Partial update. The nested options tell "leave as is" (`None`) from
/// "clear" (`Some(None)`).
pub struct UpdatePatch {
    pub name: Option<String>,
    pub mc_version: Option<String>,
    pub loader: Option<Loader>,
    pub loader_version: Option<Option<String>>,
    pub ram_mb: Option<u32>,
    pub icon: Option<Option<String>>,
    pub java_path: Option<Option<String>>,
    pub favorite: Option<bool>,
}

/// The error for an empty name.
pub open spec fn is_empty_name_error(e: AetherError) -> bool {
    e matches AetherError::InvalidState(m) && m@ == "el nombre no puede estar vacio"@
}

/// A name as stored: trimmed, and not empty once trimmed.
pub fn validated_name(raw: &str) -> (r: Result<String, AetherError>)
    ensures
        trim(raw@).len() == 0 ==> (r matches Err(e) && is_empty_name_error(e)),
        trim(raw@).len() > 0 ==> (r matches Ok(n) && n@ == trim(raw@)),
{
    let c = chars_of(raw);
    let t = trim_exec(c.as_slice());
    if t.len() == 0 {
        return Err(AetherError::InvalidState("el nombre no puede estar vacio".to_owned()));
    }
    Ok(string_from_chars(t.as_slice()))
}

/// A new instance built from the creation input, or the empty-name error.
pub open spec fn created_matches(
    inst: Instance,
    input: CreateInput,
    id: Seq<char>,
    path: Seq<char>,
    created_at: i64,
) -> bool {
    &&& inst.id@ == id
    &&& inst.name@ == trim(input.name@)
    &&& inst.mc_version == input.mc_version
    &&& inst.loader == input.loader
    &&& inst.loader_version == input.loader_version
    &&& inst.ram_mb == match input.ram_mb {
        Some(r) => r,
        None => 4096u32,
    }
    &&& inst.path@ == path
    &&& inst.icon == input.icon
    &&& inst.java_path == input.java_path
    &&& inst.java_major is None
    &&& !inst.favorite
    &&& inst.created_at == created_at
    &&& inst.last_played is None
    &&& inst.playtime_secs == 0
    &&& inst.mod_count == 0
    &&& inst.status == InstallStatus::Created
    &&& inst.installed_at is None
    &&& inst.total_size_bytes == 0
    &&& inst.last_error is None
    &&& inst.settings.resolution_width is None && inst.settings.resolution_height is None
        && !inst.settings.fullscreen
    &&& inst.modpack.source is None && inst.modpack.project_id is None
        && inst.modpack.version_id is None
    &&& inst.installation.current_phase@ == Seq::<char>::empty()
        && inst.installation.progress_bits == progress_zero()
}

/// Builds a new instance with the given id, stored under `instances_dir`,
/// created at `created_at`: RAM defaults to 4096 MB, status `Created`,
/// counters at zero, settings and modpack empty.
pub fn new_instance(
    input: CreateInput,
    id: String,
    instances_dir: &str,
    created_at: i64,
    os: Os,
) -> (r: Result<Instance, AetherError>)
    ensures
        trim(input.name@).len() == 0 ==> (r matches Err(e) && is_empty_name_error(e)),
        trim(input.name@).len() > 0 ==> (r matches Ok(inst) && created_matches(
            inst,
            input,
            id@,
            join_path(os, instances_dir@, id@),
            created_at,
        )),
{
    let name = match validated_name(input.name.as_str()) {
        Ok(n) => n,
        Err(e) => {
            return Err(e);
        },
    };
    let path = join(os, instances_dir, id.as_str());
    let ram_mb = match input.ram_mb {
        Some(r) => r,
        None => 4096,
    };
    Ok(
        Instance {
            id,
            name,
            mc_version: input.mc_version,
            loader: input.loader,
            loader_version: input.loader_version,
            ram_mb,
            path,
            icon: input.icon,
            java_path: input.java_path,
            favorite: false,
            created_at,
            last_played: None,
            playtime_secs: 0,
            mod_count: 0,
            status: InstallStatus::default(),
            settings: InstanceSettings::default(),
            modpack: Modpack::default(),
            java_major: None,
            installed_at: None,
            total_size_bytes: 0,
            last_error: None,
            installation: Installation::default(),
        },
    )
}

/// Creates an instance: a fresh id, its folder under `instances_dir`, the
/// current time as creation time.
pub fn create_instance(input: CreateInput, instances_dir: &str, os: Os) -> (r: Result<
    Instance,
    AetherError,
>)
    ensures
        trim(input.name@).len() == 0 ==> (r matches Err(e) && is_empty_name_error(e)),
        trim(input.name@).len() > 0 ==> (r matches Ok(inst) && inst.id@.len() == 32 && (forall|i: int|
            0 <= i < 32 ==> is_lower_hex(#[trigger] inst.id@[i])) && created_matches(
            inst,
            input,
            inst.id@,
            join_path(os, instances_dir@, inst.id@),
            inst.created_at,
        )),
{
    let id = new_instance_id();
    let created_at = now();
    new_instance(input, id, instances_dir, created_at, os)
}

/// The instance after a patch: each given field replaced (the name
/// trimmed), the others kept; an empty name refuses the whole patch.
pub open spec fn patched(inst: Instance, patch: UpdatePatch, name: Seq<char>, r: Instance) -> bool {
    &&& match patch.name {
        Some(_) => r.name@ == name,
        None => r.name == inst.name,
    }
    &&& r.mc_version == match patch.mc_version {
        Some(v) => v,
        None => inst.mc_version,
    }
    &&& r.loader == match patch.loader {
        Some(v) => v,
        None => inst.loader,
    }
    &&& r.loader_version == match patch.loader_version {
        Some(v) => v,
        None => inst.loader_version,
    }
    &&& r.ram_mb == match patch.ram_mb {
        Some(v) => v,
        None => inst.ram_mb,
    }
    &&& r.icon == match patch.icon {
        Some(v) => v,
        None => inst.icon,
    }
    &&& r.java_path == match patch.java_path {
        Some(v) => v,
        None => inst.java_path,
    }
    &&& r.favorite == match patch.favorite {
        Some(v) => v,
        None => inst.favorite,
    }
    &&& r.id == inst.id
    &&& r.path == inst.path
    &&& r.java_major == inst.java_major
    &&& r.created_at == inst.created_at
    &&& r.last_played == inst.last_played
    &&& r.playtime_secs == inst.playtime_secs
    &&& r.mod_count == inst.mod_count
    &&& r.status == inst.status
    &&& r.installed_at == inst.installed_at
    &&& r.total_size_bytes == inst.total_size_bytes
    &&& r.last_error == inst.last_error
    &&& r.settings == inst.settings
    &&& r.modpack == inst.modpack
    &&& r.installation == inst.installation
}

/// Applies a partial update.
pub fn apply_patch(inst: Instance, patch: UpdatePatch) -> (r: Result<Instance, AetherError>)
    ensures
        (patch.name matches Some(n) && trim(n@).len() == 0) ==> (r matches Err(e)
            && is_empty_name_error(e)),
        !(patch.name matches Some(n) && trim(n@).len() == 0) ==> (r matches Ok(out) && patched(
            inst,
            patch,
            match patch.name {
                Some(n) => trim(n@),
                None => Seq::empty(),
            },
            out,
        )),
{
    let mut inst = inst;
    if let Some(v) = patch.name {
        match validated_name(v.as_str()) {
            Ok(t) => {
                inst.name = t;
            },
            Err(e) => {
                return Err(e);
            },
        }
    }
    if let Some(v) = patch.mc_version {
        inst.mc_version = v;
    }
    if let Some(v) = patch.loader {
        inst.loader = v;
    }
    if let Some(v) = patch.loader_version {
        inst.loader_version = v;
    }
    if let Some(v) = patch.ram_mb {
        inst.ram_mb = v;
    }
    if let Some(v) = patch.icon {
        inst.icon = v;
    }
    if let Some(v) = patch.java_path {
        inst.java_path = v;
    }
    if let Some(v) = patch.favorite {
        inst.favorite = v;
    }
    Ok(inst)
}

/// The patch that changes nothing.
pub open spec fn is_empty_patch(patch: UpdatePatch) -> bool {
    &&& patch.name is None
    &&& patch.mc_version is None
    &&& patch.loader is None
    &&& patch.loader_version is None
    &&& patch.ram_mb is None
    &&& patch.icon is None
    &&& patch.java_path is None
    &&& patch.favorite is None
}

/// An empty patch leaves the instance as it was.
pub proof fn lemma_empty_patch_keeps(inst: Instance, patch: UpdatePatch, name: Seq<char>, r: Instance)
    requires
        is_empty_patch(patch),
        patched(inst, patch, name, r),
    ensures
        r == inst,
{
}

/// `<name> (copia)`.
pub open spec fn copy_name(name: Seq<char>) -> Seq<char> {
    name + " (copia)"@
}

/// A duplicate: same record except a new id and folder, the name marked as
/// a copy, the creation time given, and no play history nor favourite mark.
pub open spec fn duplicated(src: Instance, r: Instance, id: Seq<char>, path: Seq<char>, created_at: i64) -> bool {
    &&& r.id@ == id
    &&& r.name@ == copy_name(src.name@)
    &&& r.path@ == path
    &&& r.created_at == created_at
    &&& r.last_played is None
    &&& r.playtime_secs == 0
    &&& !r.favorite
    &&& r.mc_version == src.mc_version
    &&& r.loader == src.loader
    &&& r.loader_version == src.loader_version
    &&& r.ram_mb == src.ram_mb
    &&& r.icon == src.icon
    &&& r.java_path == src.java_path
    &&& r.java_major == src.java_major
    &&& r.mod_count == src.mod_count
    &&& r.status == src.status
    &&& r.installed_at == src.installed_at
    &&& r.total_size_bytes == src.total_size_bytes
    &&& r.last_error == src.last_error
    &&& r.settings == src.settings
    &&& r.modpack == src.modpack
    &&& r.installation == src.installation
}

/// Duplicates an instance under a given id and creation time.
pub fn duplicate(src: &Instance, new_id: String, instances_dir: &str, created_at: i64, os: Os) -> (r:
    Instance)
    ensures
        duplicated(*src, r, new_id@, join_path(os, instances_dir@, new_id@), created_at),
{
    let mut copy = src.copy();
    copy.path = join(os, instances_dir, new_id.as_str());
    copy.id = new_id;
    let mut name = src.name.clone();
    name.append(" (copia)");
    copy.name = name;
    copy.created_at = created_at;
    copy.last_played = None;
    copy.playtime_secs = 0;
    copy.favorite = false;
    copy
}

/// Duplicates an instance with a fresh id, created now.
pub fn duplicate_instance(src: &Instance, instances_dir: &str, os: Os) -> (r: Instance)
    ensures
        r.id@.len() == 32,
        forall|i: int| 0 <= i < 32 ==> is_lower_hex(#[trigger] r.id@[i]),
        duplicated(*src, r, r.id@, join_path(os, instances_dir@, r.id@), r.created_at),
{
    let id = new_instance_id();
    let created_at = now();
    duplicate(src, id, instances_dir, created_at, os)
}

/// Importing instances is announced but not available yet.
pub fn import_instance(_path: String) -> (r: Result<Instance, AetherError>)
    ensures
        r matches Err(AetherError::NotImplemented(m)) && m@
            == "la importacion de instancias llegara en una fase posterior"@,
{
    Err(
        AetherError::NotImplemented(
            "la importacion de instancias llegara en una fase posterior".to_owned(),
        ),
    )
}

/// `i` is the first index entry with id `id`.
pub open spec fn first_summary(index: Seq<InstanceSummary>, id: Seq<char>, i: int) -> bool {
    &&& 0 <= i < index.len()
    &&& index[i].id@ == id
    &&& forall|j: int| 0 <= j < i ==> (#[trigger] index[j]).id@ != id
}

fn find_summary(index: &Vec<InstanceSummary>, id: &str) -> (r: Option<usize>)
    ensures
        match r {
            Some(i) => first_summary(index@, id@, i as int),
            None => forall|j: int| 0 <= j < index@.len() ==> (#[trigger] index@[j]).id@ != id@,
        },
{
    let mut i: usize = 0;
    while i < index.len()
        invariant
            i <= index@.len(),
            forall|j: int| 0 <= j < i ==> (#[trigger] index@[j]).id@ != id@,
        decreases index.len() - i,
    {
        if str_eq(index[i].id.as_str(), id) {
            return Some(i);
        }
        i = i + 1;
    }
    None
}

/// Replaces the first index entry of the instance by its new summary; an
/// index without the instance is left as it is.
pub fn refresh_summary(index: &mut Vec<InstanceSummary>, inst: &Instance)
    ensures
        match find_first(old(index)@, inst.id@) {
            Some(i) => final(index)@ == old(index)@.update(i, summary_of(*inst)),
            None => final(index)@ == old(index)@,
        },
{
    match find_summary(index, inst.id.as_str()) {
        Some(i) => {
            proof {
                lemma_find_first(old(index)@, inst.id@, i as int);
            }
            index.set(i, InstanceSummary::of(inst));
        },
        None => {
            proof {
                lemma_find_first_none(old(index)@, inst.id@);
            }
        },
    }
}

/// The position of the first index entry with id `id`.
pub open spec fn find_first(index: Seq<InstanceSummary>, id: Seq<char>) -> Option<int> {
    if exists|i: int| first_summary(index, id, i) {
        Some(choose|i: int| first_summary(index, id, i))
    } else {
        None
    }
}

pub proof fn lemma_find_first(index: Seq<InstanceSummary>, id: Seq<char>, i: int)
    requires
        first_summary(index, id, i),
    ensures
        find_first(index, id) == Some(i),
{
    let c = choose|c: int| first_summary(index, id, c);
    if c < i {
        assert(index[c].id@ != id);
    } else if i < c {
        assert(index[i].id@ != id);
    }
}

pub proof fn lemma_find_first_none(index: Seq<InstanceSummary>, id: Seq<char>)
    requires
        forall|j: int| 0 <= j < index.len() ==> (#[trigger] index[j]).id@ != id,
    ensures
        find_first(index, id) is None,
{
}

/// Sets the install status of the instance's first index entry.
pub fn set_status(index: &mut Vec<InstanceSummary>, id: &str, status: InstallStatus)
    ensures
        match find_first(old(index)@, id@) {
            Some(i) => final(index)@.len() == old(index)@.len() && final(index)@[i] == (
            InstanceSummary { status, ..old(index)@[i] }) && forall|j: int|
                0 <= j < old(index)@.len() && j != i ==> final(index)@[j] == old(index)@[j],
            None => final(index)@ == old(index)@,
        },
{
    match find_summary(index, id) {
        Some(i) => {
            proof {
                lemma_find_first(old(index)@, id@, i as int);
            }
            let old_entry = &index[i];
            let entry = InstanceSummary {
                id: old_entry.id.clone(),
                name: old_entry.name.clone(),
                mc_version: old_entry.mc_version.clone(),
                loader: old_entry.loader,
                ram_mb: old_entry.ram_mb,
                icon: copy_opt_string(&old_entry.icon),
                last_played: old_entry.last_played,
                playtime_secs: old_entry.playtime_secs,
                mod_count: old_entry.mod_count,
                favorite: old_entry.favorite,
                status,
                total_size_bytes: old_entry.total_size_bytes,
            };
            index.set(i, entry);
        },
        None => {
            proof {
                lemma_find_first_none(old(index)@, id@);
            }
        },
    }
}

/// Entries of other instances than `id`.
pub open spec fn other_than(id: Seq<char>) -> spec_fn(InstanceSummary) -> bool {
    |e: InstanceSummary| e.id@ != id
}

/// After a removal no entry of the instance is left, and every entry of
/// another instance is kept.
pub proof fn lemma_removal(index: Seq<InstanceSummary>, id: Seq<char>)
    ensures
        forall|i: int|
            0 <= i < index.filter(other_than(id)).len() ==> (#[trigger] index.filter(
                other_than(id),
            )[i]).id@ != id,
        forall|i: int|
            0 <= i < index.len() && (#[trigger] index[i]).id@ != id ==> index.filter(
                other_than(id),
            ).contains(index[i]),
{
    let f = index.filter(other_than(id));
    assert forall|i: int| 0 <= i < f.len() implies (#[trigger] f[i]).id@ != id by {
        index.lemma_filter_pred(other_than(id), i);
    }
    assert forall|i: int| 0 <= i < index.len() && (#[trigger] index[i]).id@ != id implies f.contains(
        index[i],
    ) by {
        index.lemma_filter_contains(other_than(id), i);
    }
}

/// Removes every index entry of the instance, keeping the others in order.
pub fn remove_from_index(index: &mut Vec<InstanceSummary>, id: &str)
    ensures
        final(index)@ == old(index)@.filter(other_than(id@)),
{
    let ghost pred = other_than(id@);
    let mut rest: Vec<InstanceSummary> = Vec::new();
    std::mem::swap(&mut rest, index);
    let mut kept: Vec<InstanceSummary> = Vec::new();
    let total = rest.len();
    let ghost all = rest@;
    // Entries are taken from the back and put back in order afterwards.
    let mut rev: Vec<InstanceSummary> = Vec::new();
    while rest.len() > 0
        invariant
            rest@ =~= all.take(rest@.len() as int),
            rev@.len() + rest@.len() == all.len(),
            all.len() <= usize::MAX,
            forall|k: int| 0 <= k < rev@.len() ==> #[trigger] rev@[k] == all[all.len() - 1 - k],
        decreases rest.len(),
    {
        let s = rest.pop().unwrap();
        rev.push(s);
    }
    let mut n: usize = 0;
    assert(all.take(0) =~= Seq::<InstanceSummary>::empty());
    while rev.len() > 0
        invariant
            n + rev@.len() == all.len(),
            all.len() <= usize::MAX,
            forall|k: int| 0 <= k < rev@.len() ==> #[trigger] rev@[k] == all[all.len() - 1 - k],
            kept@ == all.take(n as int).filter(pred),
            pred == other_than(id@),
        decreases rev.len(),
    {
        let s = rev.pop().unwrap();
        proof {
            assert(s == all[n as int]);
            reveal_with_fuel(Seq::filter, 1);
            assert(all.take(n + 1).drop_last() =~= all.take(n as int));
            assert(all.take(n + 1).last() == s);
        }
        let keep = !str_eq(s.id.as_str(), id);
        assert(keep == pred(s));
        if keep {
            kept.push(s);
        }
        assert(kept@ =~= all.take(n + 1).filter(pred));
        n = n + 1;
    }
    assert(all.take(n as int) =~= all);
    *index = kept;
}

} // verus!
