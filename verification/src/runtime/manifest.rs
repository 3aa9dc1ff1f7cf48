//! Mojang's index of Java runtimes, on two levels: the index maps a
//! platform to components to releases (with the URL of each component's
//! manifest); a component's manifest lists its files.

use vstd::prelude::*;
use crate::assoc::{assoc_get, find_key, keys_distinct};
use crate::error::AetherError;
use crate::platform::{os_name, Os};
use crate::text::{chars_of, decimal, has_prefix, push_decimal, starts_with, str_eq, string_from_chars};

verus! {

/// The index: platform key to component name to releases.
pub type JavaRuntimeIndex = Vec<(String, Vec<(String, Vec<RuntimeRelease>)>)>;

pub struct RuntimeRelease {
    pub manifest: ManifestRef,
    pub version: RuntimeVersion,
}

pub struct ManifestRef {
    pub sha1: String,
    pub size: u64,
    pub url: String,
}

pub struct RuntimeVersion {
    pub name: String,
    pub released: String,
}

/// A component's manifest: each entry is a file, folder or symlink relative
/// to the runtime's root.
pub struct RuntimeManifest {
    pub files: Vec<(String, FileEntry)>,
}

impl RuntimeManifest {
    /// The manifest's invariant: no path is listed twice.
    pub open spec fn wf(&self) -> bool {
        keys_distinct(self.files@)
    }
}

/// The index's invariant: no platform key occurs twice, nor a component
/// name twice under one platform.
pub open spec fn runtime_index_wf(index: Seq<(String, Vec<(String, Vec<RuntimeRelease>)>)>) -> bool {
    &&& keys_distinct(index)
    &&& forall|i: int| 0 <= i < index.len() ==> keys_distinct(#[trigger] index[i].1@)
}

pub enum FileEntry {
    File { executable: bool, downloads: FileDownloads },
    Directory,
    Link { target: String },
}

pub struct FileDownloads {
    /// Uncompressed form (the one used: no lzma decoder needed).
    pub raw: Download,
    pub lzma: Option<Download>,
}

pub struct Download {
    pub sha1: String,
    pub size: u64,
    pub url: String,
}

/// Mojang's platform key for an operating system and a Mojang architecture
/// name; `None` where Mojang ships no runtime.
pub open spec fn platform_key_of(os: Os, arch: Seq<char>) -> Option<Seq<char>> {
    match os {
        Os::Windows => if arch == "x64"@ {
            Some("windows-x64"@)
        } else if arch == "arm64"@ {
            Some("windows-arm64"@)
        } else if arch == "x86"@ {
            Some("windows-x86"@)
        } else {
            None
        },
        Os::Linux => if arch == "x64"@ {
            Some("linux"@)
        } else if arch == "x86"@ {
            Some("linux-i386"@)
        } else {
            None
        },
        Os::Osx => if arch == "x64"@ {
            Some("mac-os"@)
        } else if arch == "arm64"@ {
            Some("mac-os-arm64"@)
        } else {
            None
        },
    }
}

/// The platform key by Mojang's convention (OS and architecture), or
/// `NotFound("no hay runtime de Java para <os>/<arch>")`.
pub fn mojang_platform_key(os: Os, arch: &str) -> (r: Result<&'static str, AetherError>)
    ensures
        match platform_key_of(os, arch@) {
            Some(k) => r matches Ok(s) && s@ == k,
            None => r matches Err(AetherError::NotFound(m)) && m@ == "no hay runtime de Java para "@
                + os_name(os) + "/"@ + arch@,
        },
{
    let key: Option<&'static str> = match os {
        Os::Windows => if str_eq(arch, "x64") {
            Some("windows-x64")
        } else if str_eq(arch, "arm64") {
            Some("windows-arm64")
        } else if str_eq(arch, "x86") {
            Some("windows-x86")
        } else {
            None
        },
        Os::Linux => if str_eq(arch, "x64") {
            Some("linux")
        } else if str_eq(arch, "x86") {
            Some("linux-i386")
        } else {
            None
        },
        Os::Osx => if str_eq(arch, "x64") {
            Some("mac-os")
        } else if str_eq(arch, "arm64") {
            Some("mac-os-arm64")
        } else {
            None
        },
    };
    match key {
        Some(k) => Ok(k),
        None => {
            let mut m = "no hay runtime de Java para ".to_owned();
            m.append(os.name());
            m.append("/");
            m.append(arch);
            Err(AetherError::NotFound(m))
        },
    }
}

/// The components that ship a Java major, in order of preference.
pub open spec fn candidates_of(major: u32) -> Seq<Seq<char>> {
    if major == 8 {
        seq!["jre-legacy"@]
    } else if major == 16 {
        seq!["java-runtime-alpha"@]
    } else if major == 17 {
        seq!["java-runtime-gamma"@, "java-runtime-beta"@, "java-runtime-gamma-snapshot"@]
    } else if major == 21 {
        seq!["java-runtime-delta"@]
    } else {
        Seq::empty()
    }
}

pub fn component_candidates(major: u32) -> (r: Vec<&'static str>)
    ensures
        r@.map_values(|s: &'static str| s@) == candidates_of(major),
{
    let mut v: Vec<&'static str> = Vec::new();
    if major == 8 {
        v.push("jre-legacy");
    } else if major == 16 {
        v.push("java-runtime-alpha");
    } else if major == 17 {
        v.push("java-runtime-gamma");
        v.push("java-runtime-beta");
        v.push("java-runtime-gamma-snapshot");
    }
    else if major == 21 {
        v.push("java-runtime-delta");
    }
    assert(v@.map_values(|s: &'static str| s@) =~= candidates_of(major));
    v
}

/// The first release of the first candidate component that has one.
pub open spec fn candidate_release(
    platform: Seq<(String, Vec<RuntimeRelease>)>,
    cands: Seq<Seq<char>>,
) -> Option<RuntimeRelease>
    decreases cands.len(),
{
    if cands.len() == 0 {
        None
    } else {
        match assoc_get(platform, cands[0]) {
            Some(rels) => if rels@.len() > 0 {
                Some(rels@[0])
            } else {
                candidate_release(platform, cands.drop_first())
            },
            None => candidate_release(platform, cands.drop_first()),
        }
    }
}

/// Whether the platform lists the component `name` with at least one release.
pub open spec fn lists_release(platform: Seq<(String, Vec<RuntimeRelease>)>, name: Seq<char>) -> bool {
    assoc_get(platform, name) matches Some(rels) && rels@.len() > 0
}

proof fn lemma_first_listed_candidate(
    platform: Seq<(String, Vec<RuntimeRelease>)>,
    cands: Seq<Seq<char>>,
    k: int,
)
    requires
        0 <= k < cands.len(),
        lists_release(platform, cands[k]),
        forall|j: int| 0 <= j < k ==> !lists_release(platform, #[trigger] cands[j]),
    ensures
        candidate_release(platform, cands) == Some(assoc_get(platform, cands[k])->0@[0]),
    decreases k,
{
    if k > 0 {
        assert(!lists_release(platform, cands[0]));
        let rest = cands.drop_first();
        assert forall|j: int| 0 <= j < k - 1 implies !lists_release(platform, #[trigger] rest[j]) by {
            assert(rest[j] == cands[j + 1]);
        }
        assert(rest[k - 1] == cands[k]);
        lemma_first_listed_candidate(platform, rest, k - 1);
    }
}

/// Components are tried in their order of preference: where candidate `k`
/// of `major` is the first one the platform lists with a release, the
/// chosen release is that component's first release. In particular the
/// most preferred component wins whenever it is listed with a release.
pub proof fn lemma_preferred_component_wins(
    platform: Seq<(String, Vec<RuntimeRelease>)>,
    major: u32,
    k: int,
)
    requires
        0 <= k < candidates_of(major).len(),
        lists_release(platform, candidates_of(major)[k]),
        forall|j: int| 0 <= j < k ==> !lists_release(platform, #[trigger] candidates_of(major)[j]),
    ensures
        chosen_release(platform, major) == Some(assoc_get(platform, candidates_of(major)[k])->0@[0]),
{
    lemma_first_listed_candidate(platform, candidates_of(major), k);
}

/// Best effort for unlisted majors: the first release of the first
/// component whose first release's version name starts with `prefix`.
pub open spec fn prefixed_release(
    comps: Seq<(String, Vec<RuntimeRelease>)>,
    prefix: Seq<char>,
) -> Option<RuntimeRelease>
    decreases comps.len(),
{
    if comps.len() == 0 {
        None
    } else if comps[0].1@.len() > 0 && has_prefix(comps[0].1@[0].version.name@, prefix) {
        Some(comps[0].1@[0])
    } else {
        prefixed_release(comps.drop_first(), prefix)
    }
}

/// The release chosen for a platform and a major: a known component first,
/// then the name prefix.
pub open spec fn chosen_release(platform: Seq<(String, Vec<RuntimeRelease>)>, major: u32) -> Option<
    RuntimeRelease,
> {
    match candidate_release(platform, candidates_of(major)) {
        Some(r) => Some(r),
        None => prefixed_release(platform, decimal(major as nat)),
    }
}

/// Chooses the release for the platform and Java major: the table of known
/// components first and, for an unlisted major, a release whose version
/// name starts with the major (e.g. "17.0.8" for 17).
pub fn select_release<'a>(index: &'a JavaRuntimeIndex, platform_key: &str, major: u32) -> (r:
    Result<&'a RuntimeRelease, AetherError>)
    requires
        runtime_index_wf(index@),
    ensures
        match assoc_get(index@, platform_key@) {
            None => r matches Err(AetherError::NotFound(m)) && m@ == "plataforma "@ + platform_key@
                + " ausente en el indice"@,
            Some(platform) => match chosen_release(platform@, major) {
                Some(rel) => r matches Ok(x) && *x == rel,
                None => r matches Err(AetherError::NotFound(m)) && m@ == "no hay runtime de Java "@
                    + decimal(major as nat) + " para "@ + platform_key@,
            },
        },
{
    let platform = match find_key(index, platform_key) {
        Some(i) => &index[i].1,
        None => {
            let mut m = "plataforma ".to_owned();
            m.append(platform_key);
            m.append(" ausente en el indice");
            return Err(AetherError::NotFound(m));
        },
    };
    let cands = component_candidates(major);
    let ghost cv = cands@.map_values(|s: &'static str| s@);
    let mut i: usize = 0;
    assert(cv.skip(0) =~= cv);
    while i < cands.len()
        invariant
            i <= cands@.len(),
            assoc_get(index@, platform_key@) == Some(*platform),
            cv == cands@.map_values(|s: &'static str| s@),
            cv == candidates_of(major),
            candidate_release(platform@, cv) == candidate_release(platform@, cv.skip(i as int)),
        decreases cands.len() - i,
    {
        let ghost rest = cv.skip(i as int);
        proof {
            assert(rest[0] == cands@[i as int]@);
            assert(rest.drop_first() =~= cv.skip(i + 1));
        }
        match find_key(platform, cands[i]) {
            Some(j) => {
                if platform[j].1.len() > 0 {
                    return Ok(&platform[j].1[0]);
                }
            },
            None => {},
        }
        i = i + 1;
    }
    assert(cv.skip(cands@.len() as int) =~= Seq::<Seq<char>>::empty());
    let mut prefix: Vec<char> = Vec::new();
    push_decimal(&mut prefix, major);
    assert(prefix@ =~= decimal(major as nat));
    let mut k: usize = 0;
    assert(platform@.skip(0) =~= platform@);
    while k < platform.len()
        invariant
            k <= platform@.len(),
            assoc_get(index@, platform_key@) == Some(*platform),
            candidate_release(platform@, candidates_of(major)) is None,
            prefix@ == decimal(major as nat),
            prefixed_release(platform@, prefix@) == prefixed_release(platform@.skip(k as int), prefix@),
        decreases platform.len() - k,
    {
        let ghost rest = platform@.skip(k as int);
        proof {
            assert(rest[0] == platform@[k as int]);
            assert(rest.drop_first() =~= platform@.skip(k + 1));
        }
        let rels = &platform[k].1;
        if rels.len() > 0 {
            let name = chars_of(rels[0].version.name.as_str());
            if starts_with(name.as_slice(), prefix.as_slice()) {
                return Ok(&rels[0]);
            }
        }
        k = k + 1;
    }
    assert(platform@.skip(platform@.len() as int) =~= Seq::<(String, Vec<RuntimeRelease>)>::empty());
    let mut m = "no hay runtime de Java ".to_owned();
    let ds = string_from_chars(prefix.as_slice());
    m.append(ds.as_str());
    m.append(" para ");
    m.append(platform_key);
    Err(AetherError::NotFound(m))
}

} // verus!
