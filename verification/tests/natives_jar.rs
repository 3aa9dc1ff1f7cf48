use aether_launcher::error::AetherError;
use aether_launcher::launch::jar::natives_in_jar;
use aether_launcher::platform::Os;
use std::io::{Cursor, Write};
use zip::write::SimpleFileOptions;
use zip::CompressionMethod;

fn build_jar(entries: &[(&str, &[u8])], method: CompressionMethod) -> Vec<u8> {
    let mut w = zip::ZipWriter::new(Cursor::new(Vec::new()));
    let opts = SimpleFileOptions::default().compression_method(method);
    for (name, data) in entries {
        if name.ends_with('/') {
            w.add_directory(*name, opts).unwrap();
        } else {
            w.start_file(*name, opts).unwrap();
            w.write_all(data).unwrap();
        }
    }
    w.finish().unwrap().into_inner()
}

fn sample() -> Vec<(&'static str, &'static [u8])> {
    vec![
        ("META-INF/MANIFEST.MF", b"Manifest-Version: 1.0"),
        ("META-INF/skip.so", b"no"),
        ("linux/", b""),
        ("linux/libfoo.so", b"foo"),
        ("BAR.SO", b"bar"),
        ("readme.txt", b"text"),
        ("win/x.dll", b"dll"),
        ("mac/y.dylib", b"dylib"),
    ]
}

fn names(files: &[(String, Vec<u8>)]) -> Vec<(String, Vec<u8>)> {
    files.to_vec()
}

#[test]
fn jar_gives_the_platform_binaries_flattened() {
    let jar = build_jar(&sample(), CompressionMethod::Deflated);
    let r = natives_in_jar("natives-linux.jar", jar, Os::Linux);
    assert!(r.error.is_none());
    assert_eq!(
        names(&r.files),
        vec![("libfoo.so".to_string(), b"foo".to_vec()), ("BAR.SO".to_string(), b"bar".to_vec())]
    );
}

#[test]
fn jar_gives_windows_and_mac_binaries() {
    let jar = build_jar(&sample(), CompressionMethod::Stored);
    let w = natives_in_jar("n.jar", jar.clone(), Os::Windows);
    assert!(w.error.is_none());
    assert_eq!(names(&w.files), vec![("x.dll".to_string(), b"dll".to_vec())]);
    let m = natives_in_jar("n.jar", jar, Os::Osx);
    assert_eq!(names(&m.files), vec![("y.dylib".to_string(), b"dylib".to_vec())]);
}

#[test]
fn jar_that_is_no_zip_is_refused() {
    let r = natives_in_jar("broken.jar", b"not a zip at all".to_vec(), Os::Linux);
    assert!(r.files.is_empty());
    match r.error {
        Some(AetherError::InvalidState(m)) => assert!(m.starts_with("zip invalido broken.jar: "), "{m}"),
        other => panic!("unexpected {other:?}"),
    }
}

#[test]
fn corrupted_entry_stops_after_the_good_ones() {
    let mut jar = build_jar(&[("a.so", b"first"), ("b.so", b"second")], CompressionMethod::Stored);
    let at = jar.windows(6).position(|w| w == b"second").unwrap();
    jar[at] = b'S';
    let r = natives_in_jar("c.jar", jar, Os::Linux);
    assert_eq!(names(&r.files), vec![("a.so".to_string(), b"first".to_vec())]);
    assert!(matches!(r.error, Some(AetherError::Io(_))));
}

#[test]
fn unreadable_entry_is_named_by_its_index() {
    let mut jar = build_jar(&[("a.so", b"first"), ("b.so", b"second")], CompressionMethod::Stored);
    // Mark the second entry as compressed with a method this build cannot read.
    let locals: Vec<usize> = jar.windows(4).enumerate().filter(|(_, w)| *w == b"PK\x03\x04").map(|(i, _)| i).collect();
    let centrals: Vec<usize> = jar.windows(4).enumerate().filter(|(_, w)| *w == b"PK\x01\x02").map(|(i, _)| i).collect();
    jar[locals[1] + 8] = 12;
    jar[centrals[1] + 10] = 12;
    let r = natives_in_jar("d.jar", jar, Os::Linux);
    assert_eq!(names(&r.files), vec![("a.so".to_string(), b"first".to_vec())]);
    match r.error {
        Some(AetherError::InvalidState(m)) => assert!(m.starts_with("entrada zip 1: "), "{m}"),
        other => panic!("unexpected {other:?}"),
    }
}
