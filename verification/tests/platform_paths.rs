use aether_launcher::minecraft::version::current_os;
use aether_launcher::platform::{join, path_file_name, Os, Platform};
use aether_launcher::runtime::paths::current_arch;
use aether_launcher::text::chars_of;

#[test]
fn current_os_uses_mojang_names() {
    assert_eq!(current_os("windows"), "windows");
    assert_eq!(current_os("macos"), "osx");
    assert_eq!(current_os("linux"), "linux");
    assert_eq!(current_os("freebsd"), "linux");
    assert_eq!(aether_launcher::runtime::paths::current_os("macos"), "osx");
}

#[test]
fn current_arch_uses_mojang_names() {
    assert_eq!(current_arch("x86_64"), "x64");
    assert_eq!(current_arch("aarch64"), "arm64");
    assert_eq!(current_arch("x86"), "x86");
    assert_eq!(current_arch("riscv64"), "unknown");
}

#[test]
fn platform_from_target() {
    let p = Platform::from_target("windows", "x86_64");
    assert_eq!(p.os, Os::Windows);
    assert_eq!(p.arch, "x86_64");
    assert_eq!(Platform::from_target("macos", "aarch64").os, Os::Osx);
    assert_eq!(Platform::from_target("linux", "x86").os, Os::Linux);
}

#[test]
fn join_puts_one_separator() {
    assert_eq!(join(Os::Linux, "/data", "libraries"), "/data/libraries");
    assert_eq!(join(Os::Linux, "/data/", "libraries"), "/data/libraries");
    assert_eq!(join(Os::Linux, "", "libraries"), "libraries");
    assert_eq!(join(Os::Linux, "/data", "/abs/x"), "/abs/x");
    assert_eq!(join(Os::Windows, "C:\\data", "libraries"), "C:\\data\\libraries");
    assert_eq!(join(Os::Windows, "C:\\data\\", "a/b.jar"), "C:\\data\\a/b.jar");
    assert_eq!(join(Os::Osx, "/Users/x", "assets"), "/Users/x/assets");
}

#[test]
fn file_name_is_last_component() {
    assert_eq!(path_file_name(Os::Linux, "a/b/c.jar").as_deref(), Some("c.jar"));
    assert_eq!(path_file_name(Os::Linux, "a/b/").as_deref(), Some("b"));
    assert_eq!(path_file_name(Os::Linux, "a/./b/.").as_deref(), Some("b"));
    assert_eq!(path_file_name(Os::Linux, "plain.jar").as_deref(), Some("plain.jar"));
    assert_eq!(path_file_name(Os::Linux, ".."), None);
    assert_eq!(path_file_name(Os::Linux, "a/.."), None);
    assert_eq!(path_file_name(Os::Linux, "/"), None);
    assert_eq!(path_file_name(Os::Linux, ""), None);
    assert_eq!(path_file_name(Os::Windows, "a\\b\\c.dll").as_deref(), Some("c.dll"));
    assert_eq!(path_file_name(Os::Linux, "a\\b\\c.dll").as_deref(), Some("a\\b\\c.dll"));
}

#[test]
fn chars_round_trip() {
    let v = chars_of("añb€");
    assert_eq!(v, vec!['a', 'ñ', 'b', '€']);
    assert_eq!(join(Os::Linux, "añb", "€"), "añb/€");
}

#[test]
fn join_keeps_windows_prefixes() {
    assert_eq!(join(Os::Windows, "C:\\a", "D:\\b"), "D:\\b");
    assert_eq!(join(Os::Windows, "C:\\a", "d:"), "d:");
    assert_eq!(join(Os::Windows, "C:\\a", "\\b"), "C:\\b");
    assert_eq!(join(Os::Windows, "C:\\a", "/b"), "C:/b");
    assert_eq!(join(Os::Windows, "C:", "x"), "C:x");
    assert_eq!(join(Os::Windows, "C:\\a", ""), "C:\\a\\");
    assert_eq!(join(Os::Windows, "\\\\srv\\share\\a", "\\b"), "\\\\srv\\share\\b");
    assert_eq!(join(Os::Windows, "\\\\srv\\share", "b"), "\\\\srv\\share\\b");
    assert_eq!(join(Os::Windows, "C:\\a", "\\\\srv\\share\\x"), "\\\\srv\\share\\x");
    assert_eq!(join(Os::Windows, "C:\\a", "\\\\.\\pipe"), "\\\\.\\pipe");
    assert_eq!(join(Os::Windows, "C:\\a", "\\\\"), "C:\\\\");
    assert_eq!(join(Os::Linux, "C:\\a", "D:\\b"), "C:\\a/D:\\b");
}

#[test]
fn join_resolves_under_verbatim_base() {
    assert_eq!(join(Os::Windows, "\\\\?\\C:\\a", "b/../c/./d"), "\\\\?\\C:\\a\\c\\d");
    assert_eq!(join(Os::Windows, "\\\\?\\C:\\a", "\\x"), "\\\\?\\C:\\x");
    assert_eq!(join(Os::Windows, "\\\\?\\C:\\a", ".."), "\\\\?\\C:\\");
    assert_eq!(join(Os::Windows, "\\\\?\\C:\\a\\", "b"), "\\\\?\\C:\\a\\b");
    assert_eq!(join(Os::Windows, "\\\\?\\UNC\\srv\\share", "x"), "\\\\?\\UNC\\srv\\share\\x");
    assert_eq!(join(Os::Windows, "\\\\?\\C:", ""), "\\\\?\\C:\\");
}

#[test]
fn file_name_skips_windows_prefixes() {
    assert_eq!(path_file_name(Os::Windows, "C:x.dll").as_deref(), Some("x.dll"));
    assert_eq!(path_file_name(Os::Windows, "C:"), None);
    assert_eq!(path_file_name(Os::Windows, "C:\\"), None);
    assert_eq!(path_file_name(Os::Windows, "\\\\srv\\share"), None);
    assert_eq!(path_file_name(Os::Windows, "\\\\srv\\share\\f.txt").as_deref(), Some("f.txt"));
    assert_eq!(path_file_name(Os::Windows, "\\\\?\\C:\\a\\."), None);
    assert_eq!(path_file_name(Os::Windows, "\\\\?\\C:\\a/b").as_deref(), Some("a/b"));
    assert_eq!(path_file_name(Os::Windows, "C:\\lib\\x.dll\\.").as_deref(), Some("x.dll"));
    assert_eq!(path_file_name(Os::Linux, "C:x.dll").as_deref(), Some("C:x.dll"));
}
