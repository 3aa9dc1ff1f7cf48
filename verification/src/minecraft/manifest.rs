//! Mojang's official version manifest: the global index of versions and the
//! URL of each version's detailed JSON.

use vstd::prelude::*;
use crate::error::{msg, AetherError};
use crate::minecraft::version::VersionOption;
use crate::text::str_eq;

verus! {

pub struct VersionManifest {
    pub latest: Latest,
    pub versions: Vec<VersionEntry>,
}

pub struct Latest {
    pub release: String,
    pub snapshot: String,
}

pub struct VersionEntry {
    pub id: String,
    pub kind: String,
    pub url: String,
    pub release_time: String,
    pub sha1: String,
}

/// `i` is the first entry with id `id`.
pub open spec fn first_with_id(vs: Seq<VersionEntry>, id: Seq<char>, i: int) -> bool {
    &&& 0 <= i < vs.len()
    &&& vs[i].id@ == id
    &&& forall|j: int| 0 <= j < i ==> (#[trigger] vs[j]).id@ != id
}

impl VersionManifest {
    /// The first entry whose id is `id`, or `NotFound("version <id>")`.
    pub fn find(&self, id: &str) -> (r: Result<&VersionEntry, AetherError>)
        ensures
            match r {
                Ok(e) => exists|i: int| first_with_id(self.versions@, id@, i) && *e == self.versions@[i],
                Err(e) => {
                    &&& forall|j: int|
                        0 <= j < self.versions@.len() ==> (#[trigger] self.versions@[j]).id@ != id@
                    &&& e matches AetherError::NotFound(m) && m@ == "version "@ + id@
                },
            },
    {
        let mut i: usize = 0;
        while i < self.versions.len()
            invariant
                i <= self.versions@.len(),
                forall|j: int| 0 <= j < i ==> (#[trigger] self.versions@[j]).id@ != id@,
            decreases self.versions.len() - i,
        {
            if str_eq(self.versions[i].id.as_str(), id) {
                assert(first_with_id(self.versions@, id@, i as int));
                return Ok(&self.versions[i]);
            }
            i = i + 1;
        }
        Err(AetherError::NotFound(msg("version ", id)))
    }
}

/// The picker entry of a manifest entry.
pub open spec fn option_of(e: VersionEntry) -> VersionOption {
    VersionOption { id: e.id, kind: e.kind, release_time: e.release_time }
}

/// The version picker's list: one option per manifest entry, in order.
pub fn version_options(manifest: VersionManifest) -> (r: Vec<VersionOption>)
    ensures
        r@.len() == manifest.versions@.len(),
        forall|i: int| 0 <= i < r@.len() ==> #[trigger] r@[i] == option_of(manifest.versions@[i]),
{
    let mut out: Vec<VersionOption> = Vec::new();
    let ghost all = manifest.versions@;
    let mut vs = manifest.versions;
    let mut rest: Vec<VersionOption> = Vec::new();
    // Taking entries from the back keeps every move cheap; they are put
    // back in order afterwards.
    while vs.len() > 0
        invariant
            vs@ =~= all.take(vs@.len() as int),
            rest@.len() + vs@.len() == all.len(),
            forall|k: int| 0 <= k < rest@.len() ==> #[trigger] rest@[k] == option_of(
                all[all.len() - 1 - k],
            ),
        decreases vs.len(),
    {
        let e = vs.pop().unwrap();
        rest.push(VersionOption { id: e.id, kind: e.kind, release_time: e.release_time });
    }
    while rest.len() > 0
        invariant
            out@.len() + rest@.len() == all.len(),
            forall|k: int| 0 <= k < rest@.len() ==> #[trigger] rest@[k] == option_of(
                all[all.len() - 1 - k],
            ),
            forall|i: int| 0 <= i < out@.len() ==> #[trigger] out@[i] == option_of(all[i]),
        decreases rest.len(),
    {
        let o = rest.pop().unwrap();
        out.push(o);
    }
    out
}

} // verus!
