use aether_launcher::download::{
    check_cancel, check_download, file_sha1, finish_hash, hash_chunk, skip_existing, start_hash, total_size,
    DownloadTask, Progress,
};
use aether_launcher::error::AetherError;

fn task(sha1: Option<&str>, size: u64) -> DownloadTask {
    DownloadTask {
        url: "https://example.invalid/f".to_string(),
        dest: "/tmp/f.jar".to_string(),
        sha1: sha1.map(|s| s.to_string()),
        size,
    }
}

const ABC_SHA1: &str = "a9993e364706816aba3e25717850c26c9cd0d89d";

#[test]
fn error_codes_and_messages() {
    let cases: Vec<(AetherError, &str, &str)> = vec![
        (AetherError::Io("x".into()), "IO", "error de E/S: x"),
        (AetherError::TomlSer("x".into()), "TOML", "error al serializar TOML: x"),
        (AetherError::TomlDe("x".into()), "TOML", "error al leer TOML: x"),
        (AetherError::Json("x".into()), "JSON", "error JSON: x"),
        (AetherError::Http("x".into()), "HTTP", "error HTTP: x"),
        (AetherError::NotFound("x".into()), "NOT_FOUND", "recurso no encontrado: x"),
        (AetherError::InvalidState("x".into()), "INVALID_STATE", "estado invalido: x"),
        (AetherError::NotImplemented("x".into()), "NOT_IMPLEMENTED", "no implementado: x"),
        (
            AetherError::HashMismatch { path: "p".into(), expected: "e".into(), actual: "a".into() },
            "HASH_MISMATCH",
            "hash SHA1 invalido para p",
        ),
    ];
    for (e, code, msg) in cases {
        assert_eq!(e.code(), code);
        assert_eq!(e.message(), msg);
    }
}

#[test]
fn sha1_of_known_inputs() {
    assert_eq!(file_sha1(b"abc"), ABC_SHA1);
    assert_eq!(file_sha1(b""), "da39a3ee5e6b4b0d3255bfef95601890afd80709");
    let mut h = start_hash();
    hash_chunk(&mut h, b"a");
    hash_chunk(&mut h, b"bc");
    assert_eq!(finish_hash(h), ABC_SHA1);
}

#[test]
fn skip_if_valid() {
    assert!(skip_existing(&task(Some(ABC_SHA1), 3), Some(b"abc")));
    assert!(!skip_existing(&task(Some(ABC_SHA1), 3), Some(b"abd")));
    assert!(!skip_existing(&task(Some(ABC_SHA1), 3), None));
    assert!(!skip_existing(&task(None, 3), Some(b"abc")));
}

#[test]
fn verified_download_is_kept_next_time() {
    let t = task(Some(ABC_SHA1), 3);
    let mut h = start_hash();
    hash_chunk(&mut h, b"abc");
    assert!(check_download(&t, h).is_ok());
    assert!(skip_existing(&t, Some(b"abc")));
}

#[test]
fn download_hash_mismatch() {
    let t = task(Some(ABC_SHA1), 3);
    let mut h = start_hash();
    hash_chunk(&mut h, b"xyz");
    match check_download(&t, h) {
        Err(AetherError::HashMismatch { path, expected, actual }) => {
            assert_eq!(path, "/tmp/f.jar");
            assert_eq!(expected, ABC_SHA1);
            assert_eq!(actual, "66b27417d37e024c46526c2f6d358a754fc552f3");
        }
        _ => panic!("expected a mismatch"),
    }
    let mut h = start_hash();
    hash_chunk(&mut h, b"anything");
    assert!(check_download(&task(None, 0), h).is_ok());
}

#[test]
fn total_size_and_overflow() {
    assert_eq!(total_size(&vec![task(None, 3), task(None, 4)]), Some(7));
    assert_eq!(total_size(&vec![]), Some(0));
    assert_eq!(total_size(&vec![task(None, u64::MAX), task(None, 1)]), None);
}

#[test]
fn progress_counters() {
    let mut p = Progress::new();
    p.record_skipped(10);
    p.record_chunk(5);
    p.record_file();
    assert_eq!(p.files_done, 2);
    assert_eq!(p.bytes_done, 15);
    assert_eq!(p.total_files, 0);
    p.bytes_done = u64::MAX;
    p.record_chunk(2);
    assert_eq!(p.bytes_done, 1);
}

#[test]
fn cancelled_download_stops() {
    assert!(check_cancel(false).is_ok());
    match check_cancel(true) {
        Err(AetherError::InvalidState(m)) => assert_eq!(m, "cancelado"),
        other => panic!("unexpected {other:?}"),
    }
}
