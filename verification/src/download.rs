//! Download tasks, SHA-1 verification (skip-if-valid, hash mismatch) and
//! aggregated progress counters.

use vstd::prelude::*;
use sha1::Digest;
use crate::error::AetherError;

verus! {

/// One file to fetch: where from, where to, its expected SHA-1 (lower-case
/// hex) and its size in bytes.
pub struct DownloadTask {
    pub url: String,
    pub dest: String,
    pub sha1: Option<String>,
    pub size: u64,
}

/// The SHA-1 digest of `data`.
pub uninterp spec fn spec_sha1(data: Seq<u8>) -> Seq<u8>;

/// A running SHA-1 computation: a `sha1::Sha1` hasher, opaque to proofs,
/// together with the bytes it has been fed so far, named by `sha1_fed`.
#[verifier::external_body]
pub struct Sha1Stream {
    inner: sha1::Sha1,
}

/// The bytes fed to a running SHA-1 computation so far.
pub uninterp spec fn sha1_fed(s: Sha1Stream) -> Seq<u8>;

/// `sha1::Sha1::new`: a computation that has been fed nothing.
#[verifier::external_body]
fn sha1_stream_new() -> (s: Sha1Stream)
    ensures
        sha1_fed(s) == Seq::<u8>::empty(),
{
    Sha1Stream { inner: sha1::Sha1::new() }
}

/// `Digest::update`: feeds `chunk` after what was fed before.
#[verifier::external_body]
fn sha1_stream_update(s: &mut Sha1Stream, chunk: &[u8])
    ensures
        sha1_fed(*final(s)) == sha1_fed(*old(s)) + chunk@,
{
    s.inner.update(chunk);
}

/// `Digest::finalize`: the 20-byte SHA-1 digest of everything fed.
#[verifier::external_body]
fn sha1_stream_finalize(s: Sha1Stream) -> (d: Vec<u8>)
    ensures
        d@ == spec_sha1(sha1_fed(s)),
        d@.len() == 20,
{
    s.inner.finalize().to_vec()
}

/// Lower-case hex digit of a value below 16.
pub open spec fn hex_digit(v: u8) -> char {
    if v < 10 {
        ((v + 48) as u8) as char
    } else {
        ((v + 87) as u8) as char
    }
}

/// Lower-case hex of `bytes`, two digits per byte, high nibble first.
pub open spec fn hex_lower(bytes: Seq<u8>) -> Seq<char>
    decreases bytes.len(),
{
    if bytes.len() == 0 {
        Seq::empty()
    } else {
        hex_lower(bytes.drop_last()) + seq![hex_digit(bytes.last() / 16), hex_digit(bytes.last() % 16)]
    }
}

/// `hex::encode`: lower-case hex, two digits per byte (as its documentation
/// states).
#[verifier::external_body]
fn hex_encode(bytes: &[u8]) -> (r: String)
    ensures
        r@ == hex_lower(bytes@),
{
    hex::encode(bytes)
}

/// The lower-case hex SHA-1 of `data`, the form Mojang's metadata uses.
pub open spec fn sha1_hex(data: Seq<u8>) -> Seq<char> {
    hex_lower(spec_sha1(data))
}

/// Starts hashing a download.
pub fn start_hash() -> (s: Sha1Stream)
    ensures
        sha1_fed(s) == Seq::<u8>::empty(),
{
    sha1_stream_new()
}

/// Feeds the next chunk of a download.
pub fn hash_chunk(s: &mut Sha1Stream, chunk: &[u8])
    ensures
        sha1_fed(*final(s)) == sha1_fed(*old(s)) + chunk@,
{
    sha1_stream_update(s, chunk)
}

/// Ends hashing: the lower-case hex SHA-1 of everything fed.
pub fn finish_hash(s: Sha1Stream) -> (r: String)
    ensures
        r@ == sha1_hex(sha1_fed(s)),
{
    let d = sha1_stream_finalize(s);
    hex_encode(d.as_slice())
}

/// The lower-case hex SHA-1 of a whole file's bytes.
pub fn file_sha1(data: &[u8]) -> (r: String)
    ensures
        r@ == sha1_hex(data@),
{
    let mut s = start_hash();
    hash_chunk(&mut s, data);
    assert(sha1_fed(s) =~= data@);
    finish_hash(s)
}

/// An existing file is kept (not fetched again) when the task names a hash
/// and the file's bytes have that hash.
pub open spec fn keeps_existing(task: DownloadTask, existing: Option<Seq<u8>>) -> bool {
    match (task.sha1, existing) {
        (Some(expected), Some(bytes)) => sha1_hex(bytes) == expected@,
        _ => false,
    }
}

/// A download's check for cancellation, made before it starts and before
/// each chunk is written: once the batch has been cancelled the download
/// stops with the error `cancelado`; otherwise it goes on.
pub fn check_cancel(cancelled: bool) -> (r: Result<(), AetherError>)
    ensures
        !cancelled ==> r is Ok,
        cancelled ==> (r matches Err(AetherError::InvalidState(m)) && m@ == "cancelado"@),
{
    if cancelled {
        Err(AetherError::InvalidState("cancelado".to_owned()))
    } else {
        Ok(())
    }
}

/// Skip-if-valid: `existing` holds the bytes of the file already at the
/// destination, if there is one.
pub fn skip_existing(task: &DownloadTask, existing: Option<&[u8]>) -> (r: bool)
    ensures
        r == keeps_existing(
            *task,
            match existing {
                Some(b) => Some(b@),
                None => None,
            },
        ),
{
    match (&task.sha1, existing) {
        (Some(expected), Some(bytes)) => {
            let actual = file_sha1(bytes);
            actual == *expected
        },
        _ => false,
    }
}

/// Downloads are resumable and idempotent: a file whose download was
/// checked against the task's hash is kept, not fetched again, by the next
/// run.
pub proof fn lemma_verified_download_is_kept(task: DownloadTask, bytes: Seq<u8>)
    requires
        task.sha1 matches Some(e) && sha1_hex(bytes) == e@,
    ensures
        keeps_existing(task, Some(bytes)),
{
}

/// The result of checking a finished download whose bytes were fed to `s`:
/// a hash mismatch when the task names a hash that differs from the actual one.
pub fn check_download(task: &DownloadTask, s: Sha1Stream) -> (r: Result<(), AetherError>)
    ensures
        match task.sha1 {
            Some(expected) => if sha1_hex(sha1_fed(s)) == expected@ {
                r is Ok
            } else {
                r matches Err(AetherError::HashMismatch { path, expected: e, actual }) && path@
                    == task.dest@ && e@ == expected@ && actual@ == sha1_hex(sha1_fed(s))
            },
            None => r is Ok,
        },
{
    match &task.sha1 {
        Some(expected) => {
            let actual = finish_hash(s);
            if actual == *expected {
                Ok(())
            } else {
                Err(
                    AetherError::HashMismatch {
                        path: task.dest.clone(),
                        expected: expected.clone(),
                        actual,
                    },
                )
            }
        },
        None => Ok(()),
    }
}

/// Sum of the sizes of `tasks`.
pub open spec fn total_size_spec(tasks: Seq<DownloadTask>) -> int
    decreases tasks.len(),
{
    if tasks.len() == 0 {
        0
    } else {
        total_size_spec(tasks.drop_last()) + tasks.last().size
    }
}

pub proof fn lemma_total_size_monotone(tasks: Seq<DownloadTask>, i: int)
    requires
        0 <= i <= tasks.len(),
    ensures
        0 <= total_size_spec(tasks.take(i)) <= total_size_spec(tasks),
    decreases tasks.len() - i,
{
    if i < tasks.len() {
        lemma_total_size_monotone(tasks, i + 1);
        assert(tasks.take(i + 1).drop_last() =~= tasks.take(i));
    } else {
        assert(tasks.take(i) =~= tasks);
    }
    lemma_total_size_nonneg(tasks.take(i));
}

pub proof fn lemma_total_size_nonneg(tasks: Seq<DownloadTask>)
    ensures
        total_size_spec(tasks) >= 0,
    decreases tasks.len(),
{
    if tasks.len() > 0 {
        lemma_total_size_nonneg(tasks.drop_last());
    }
}

/// The total number of bytes of a batch, or `None` when it does not fit in
/// a `u64`.
pub fn total_size(tasks: &Vec<DownloadTask>) -> (r: Option<u64>)
    ensures
        match r {
            Some(t) => t == total_size_spec(tasks@),
            None => total_size_spec(tasks@) > u64::MAX,
        },
{
    let mut sum: u64 = 0;
    let mut i: usize = 0;
    while i < tasks.len()
        invariant
            i <= tasks@.len(),
            sum == total_size_spec(tasks@.take(i as int)),
        decreases tasks.len() - i,
    {
        proof {
            assert(tasks@.take(i + 1).drop_last() =~= tasks@.take(i as int));
        }
        match sum.checked_add(tasks[i].size) {
            Some(s) => {
                sum = s;
            },
            None => {
                proof {
                    lemma_total_size_monotone(tasks@, i + 1);
                }
                return None;
            },
        }
        i = i + 1;
    }
    assert(tasks@.take(tasks@.len() as int) =~= tasks@);
    Some(sum)
}

/// Shared counters of a batch's progress.
pub struct Progress {
    pub files_done: u64,
    pub bytes_done: u64,
    pub total_files: u64,
    pub total_bytes: u64,
}

impl Progress {
    /// Counters of a batch that has not started.
    pub fn new() -> (r: Progress)
        ensures
            r.files_done == 0 && r.bytes_done == 0 && r.total_files == 0 && r.total_bytes == 0,
    {
        Progress { files_done: 0, bytes_done: 0, total_files: 0, total_bytes: 0 }
    }

    /// A file that was already valid counts as done, with all of its bytes.
    pub fn record_skipped(&mut self, size: u64)
        ensures
            final(self).files_done == old(self).files_done.wrapping_add(1),
            final(self).bytes_done == old(self).bytes_done.wrapping_add(size),
            final(self).total_files == old(self).total_files,
            final(self).total_bytes == old(self).total_bytes,
    {
        self.files_done = self.files_done.wrapping_add(1);
        self.bytes_done = self.bytes_done.wrapping_add(size);
    }

    /// A chunk of `len` bytes arrived.
    pub fn record_chunk(&mut self, len: u64)
        ensures
            final(self).files_done == old(self).files_done,
            final(self).bytes_done == old(self).bytes_done.wrapping_add(len),
            final(self).total_files == old(self).total_files,
            final(self).total_bytes == old(self).total_bytes,
    {
        self.bytes_done = self.bytes_done.wrapping_add(len);
    }

    /// A file finished downloading.
    pub fn record_file(&mut self)
        ensures
            final(self).files_done == old(self).files_done.wrapping_add(1),
            final(self).bytes_done == old(self).bytes_done,
            final(self).total_files == old(self).total_files,
            final(self).total_bytes == old(self).total_bytes,
    {
        self.files_done = self.files_done.wrapping_add(1);
    }
}

} // verus!
