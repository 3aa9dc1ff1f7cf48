//! Reading a natives jar: the zip archive is read by the `zip` crate, and
//! the entries the platform needs are chosen here, in archive order, up to
//! the first entry that cannot be read.

use vstd::prelude::*;
use crate::error::AetherError;
use crate::launch::natives::{native_entry, native_entry_leaf};
use crate::platform::Os;
use crate::text::{decimal, push_decimal_usize, string_from_chars};

verus! {

/// `std::io::Cursor`, the in-memory reader the archive reads from.
#[verifier::external_type_specification]
#[verifier::external_body]
#[verifier::reject_recursive_types(T)]
pub struct ExCursor<T>(std::io::Cursor<T>);

/// `zip::ZipArchive`, an opened zip archive.
#[verifier::external_type_specification]
#[verifier::external_body]
#[verifier::reject_recursive_types(R)]
pub struct ExZipArchive<R>(zip::ZipArchive<R>);

/// The bytes an opened archive reads its entries from.
pub uninterp spec fn zip_source(a: zip::ZipArchive<std::io::Cursor<Vec<u8>>>) -> Seq<u8>;

/// The text of the error with which `ZipArchive::new` refuses `bytes`, or
/// `None` where it opens them.
pub uninterp spec fn zip_open_error(bytes: Seq<u8>) -> Option<Seq<char>>;

/// How many entries the archive of `bytes` lists (`ZipArchive::len`).
pub uninterp spec fn zip_entry_count(bytes: Seq<u8>) -> usize;

/// The name of entry `i` of the archive of `bytes` (`ZipArchive::by_index`
/// and `ZipFile::name`), or the text of the error `by_index` gives.
pub uninterp spec fn zip_entry_name(bytes: Seq<u8>, i: usize) -> Result<Seq<char>, Seq<char>>;

/// The uncompressed bytes of entry `i` of the archive of `bytes`, read to
/// their end (`by_index`, then `Read::read_to_end`), or the text of the
/// error met on the way.
pub uninterp spec fn zip_entry_data(bytes: Seq<u8>, i: usize) -> Result<Seq<u8>, Seq<char>>;

/// Whether a zip entry name stands for a directory: it ends with `/` or `\`.
pub open spec fn zip_dir_name(name: Seq<char>) -> bool {
    name.len() > 0 && (name.last() == '/' || name.last() == '\\')
}

/// `zip::ZipArchive::new` over `bytes` held in memory: the archive, which
/// reads from `bytes`, or the text of the error that refused them.
#[verifier::external_body]
fn zip_open(bytes: Vec<u8>) -> (r: Result<zip::ZipArchive<std::io::Cursor<Vec<u8>>>, String>)
    ensures
        match r {
            Ok(a) => zip_open_error(bytes@) is None && zip_source(a) == bytes@,
            Err(m) => zip_open_error(bytes@) == Some(m@),
        },
{
    match zip::ZipArchive::new(std::io::Cursor::new(bytes)) {
        Ok(a) => Ok(a),
        Err(e) => Err(e.to_string()),
    }
}

/// `ZipArchive::len`: how many entries the archive lists.
#[verifier::external_body]
fn zip_len(a: &zip::ZipArchive<std::io::Cursor<Vec<u8>>>) -> (r: usize)
    ensures
        r == zip_entry_count(zip_source(*a)),
{
    a.len()
}

/// `ZipArchive::by_index`, then `ZipFile::name` and `ZipFile::is_dir`: the
/// name of entry `i` and whether it ends with `/` or `\` (the source's test
/// for a directory), or the text of the error. The archive goes on reading
/// the same bytes.
#[verifier::external_body]
fn zip_entry_header(a: &mut zip::ZipArchive<std::io::Cursor<Vec<u8>>>, i: usize) -> (r: Result<
    (String, bool),
    String,
>)
    ensures
        zip_source(*final(a)) == zip_source(*old(a)),
        match r {
            Ok((n, d)) => zip_entry_name(zip_source(*old(a)), i) == Ok::<Seq<char>, Seq<char>>(n@)
                && d == zip_dir_name(n@),
            Err(m) => zip_entry_name(zip_source(*old(a)), i) == Err::<Seq<char>, Seq<char>>(m@),
        },
{
    match a.by_index(i) {
        Ok(f) => Ok((f.name().to_owned(), f.is_dir())),
        Err(e) => Err(e.to_string()),
    }
}

/// `ZipArchive::by_index`, then `Read::read_to_end` on the entry: the
/// uncompressed bytes of entry `i`, or the text of the error met on the
/// way. The archive goes on reading the same bytes.
#[verifier::external_body]
fn zip_entry_bytes(a: &mut zip::ZipArchive<std::io::Cursor<Vec<u8>>>, i: usize) -> (r: Result<
    Vec<u8>,
    String,
>)
    ensures
        zip_source(*final(a)) == zip_source(*old(a)),
        match r {
            Ok(d) => zip_entry_data(zip_source(*old(a)), i) == Ok::<Seq<u8>, Seq<char>>(d@),
            Err(m) => zip_entry_data(zip_source(*old(a)), i) == Err::<Seq<u8>, Seq<char>>(m@),
        },
{
    let mut f = match a.by_index(i) {
        Ok(f) => f,
        Err(e) => return Err(e.to_string()),
    };
    let mut buf: Vec<u8> = Vec::new();
    match std::io::Read::read_to_end(&mut f, &mut buf) {
        Ok(_) => Ok(buf),
        Err(e) => Err(e.to_string()),
    }
}

/// What the extraction keeps of entry `i` of the jar `bytes`: its leaf
/// name, where the entry is a native binary of the platform.
pub open spec fn kept_leaf(bytes: Seq<u8>, os: Os, i: usize) -> Option<Seq<char>> {
    match zip_entry_name(bytes, i) {
        Ok(name) => native_entry(name, zip_dir_name(name), os),
        Err(_) => None,
    }
}

/// Whether entry `i` stops the extraction: its name cannot be read, or it
/// is kept and its bytes cannot be read.
pub open spec fn entry_fails(bytes: Seq<u8>, os: Os, i: usize) -> bool {
    zip_entry_name(bytes, i) is Err || (kept_leaf(bytes, os, i) is Some && zip_entry_data(
        bytes,
        i,
    ) is Err)
}

/// The files the first `k` entries give: the leaf name and bytes of each
/// kept entry whose bytes can be read.
pub open spec fn extracted(bytes: Seq<u8>, os: Os, k: int) -> Seq<(Seq<char>, Seq<u8>)>
    decreases k,
{
    if k <= 0 {
        Seq::empty()
    } else {
        let prev = extracted(bytes, os, k - 1);
        let i = (k - 1) as usize;
        match kept_leaf(bytes, os, i) {
            Some(leaf) => match zip_entry_data(bytes, i) {
                Ok(d) => prev.push((leaf, d)),
                Err(_) => prev,
            },
            None => prev,
        }
    }
}

/// The first of the first `k` entries that stops the extraction.
pub open spec fn first_failure(bytes: Seq<u8>, os: Os, k: int) -> Option<usize>
    decreases k,
{
    if k <= 0 {
        None
    } else {
        match first_failure(bytes, os, k - 1) {
            Some(j) => Some(j),
            None => if entry_fails(bytes, os, (k - 1) as usize) {
                Some((k - 1) as usize)
            } else {
                None
            },
        }
    }
}

proof fn lemma_first_failure_stays(bytes: Seq<u8>, os: Os, k1: int, k2: int)
    requires
        0 <= k1 <= k2,
        first_failure(bytes, os, k1) is Some,
    ensures
        first_failure(bytes, os, k2) == first_failure(bytes, os, k1),
    decreases k2 - k1,
{
    if k1 < k2 {
        lemma_first_failure_stays(bytes, os, k1, k2 - 1);
    }
}

/// The files as pairs of text and bytes.
pub open spec fn file_views(files: Seq<(String, Vec<u8>)>) -> Seq<(Seq<char>, Seq<u8>)> {
    files.map_values(|f: (String, Vec<u8>)| (f.0@, f.1@))
}

/// The native binaries read from one jar, in archive order, and the error
/// that stopped the reading, if one did.
pub struct JarNatives {
    pub files: Vec<(String, Vec<u8>)>,
    pub error: Option<AetherError>,
}

/// What reading the jar `jar` whose bytes are `bytes` gives for `os`: an
/// archive that does not open gives no file and `zip invalido <jar>: ..`;
/// otherwise the files of the entries before the first failing one, and,
/// where an entry fails, `entrada zip <i>: ..` for an entry that cannot be
/// read, or the read error of a kept entry whose bytes cannot be read.
pub open spec fn jar_natives(jar: Seq<char>, bytes: Seq<u8>, os: Os, r: JarNatives) -> bool {
    match zip_open_error(bytes) {
        Some(m) => r.files@.len() == 0 && (r.error matches Some(AetherError::InvalidState(e)) && e@
            == "zip invalido "@ + jar + ": "@ + m),
        None => match first_failure(bytes, os, zip_entry_count(bytes) as int) {
            None => file_views(r.files@) == extracted(bytes, os, zip_entry_count(bytes) as int)
                && r.error is None,
            Some(j) => file_views(r.files@) == extracted(bytes, os, j as int) && match zip_entry_name(
                bytes,
                j,
            ) {
                Err(m) => r.error matches Some(AetherError::InvalidState(e)) && e@ == "entrada zip "@
                    + decimal(j as nat) + ": "@ + m,
                Ok(_) => r.error matches Some(AetherError::Io(e)) && zip_entry_data(bytes, j) == Err::<
                    Seq<u8>,
                    Seq<char>,
                >(e@),
            },
        },
    }
}

/// Reads the native binaries of the platform out of the natives jar `jar`
/// whose bytes are `bytes`: each entry that `native_entry` keeps gives its
/// leaf name and uncompressed bytes, in archive order, until an entry fails.
pub fn natives_in_jar(jar: &str, bytes: Vec<u8>, os: Os) -> (r: JarNatives)
    ensures
        jar_natives(jar@, bytes@, os, r),
{
    let ghost b = bytes@;
    let mut archive = match zip_open(bytes) {
        Ok(a) => a,
        Err(m) => {
            let mut e = "zip invalido ".to_owned();
            e.append(jar);
            e.append(": ");
            e.append(m.as_str());
            return JarNatives { files: Vec::new(), error: Some(AetherError::InvalidState(e)) };
        },
    };
    let n = zip_len(&archive);
    let mut files: Vec<(String, Vec<u8>)> = Vec::new();
    let mut i: usize = 0;
    assert(file_views(files@) =~= extracted(b, os, 0));
    while i < n
        invariant
            zip_source(archive) == b,
            b == bytes@,
            zip_open_error(b) is None,
            n == zip_entry_count(b),
            i <= n,
            first_failure(b, os, i as int) is None,
            file_views(files@) == extracted(b, os, i as int),
        decreases n - i,
    {
        let ghost before = files@;
        match zip_entry_header(&mut archive, i) {
            Err(m) => {
                let mut d: Vec<char> = Vec::new();
                push_decimal_usize(&mut d, i);
                assert(d@ =~= decimal(i as nat));
                let mut e = "entrada zip ".to_owned();
                let ds = string_from_chars(d.as_slice());
                e.append(ds.as_str());
                e.append(": ");
                e.append(m.as_str());
                proof {
                    assert(first_failure(b, os, i + 1) == Some(i));
                    lemma_first_failure_stays(b, os, i + 1, n as int);
                }
                return JarNatives { files, error: Some(AetherError::InvalidState(e)) };
            },
            Ok((name, is_dir)) => {
                match native_entry_leaf(name.as_str(), is_dir, os) {
                    None => {
                        assert(kept_leaf(b, os, i) is None);
                    },
                    Some(leaf) => {
                        assert(kept_leaf(b, os, i) == Some(leaf@));
                        match zip_entry_bytes(&mut archive, i) {
                            Ok(data) => {
                                files.push((leaf, data));
                            },
                            Err(m) => {
                                proof {
                                    assert(first_failure(b, os, i + 1) == Some(i));
                                    lemma_first_failure_stays(b, os, i + 1, n as int);
                                }
                                return JarNatives { files, error: Some(AetherError::Io(m)) };
                            },
                        }
                    },
                }
            },
        }
        assert(file_views(files@) =~= extracted(b, os, i + 1));
        i = i + 1;
    }
    JarNatives { files, error: None }
}

} // verus!
