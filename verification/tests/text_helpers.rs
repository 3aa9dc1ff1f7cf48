use aether_launcher::text::{
    chars_of, ends_with, is_ws_exec, join_exec, push_decimal, replace_all_exec,
    replace_char_exec, split_chars, starts_with, str_eq, trim_exec, words_exec,
};

fn s(v: &[char]) -> String {
    v.iter().collect()
}

#[test]
fn split_keeps_empty_pieces() {
    let parts = split_chars(&chars_of("a::b:"), ':');
    let got: Vec<String> = parts.iter().map(|p| s(p)).collect();
    assert_eq!(got, vec!["a", "", "b", ""]);
    assert_eq!(split_chars(&[], ':').len(), 1);
}

#[test]
fn replace_helpers() {
    assert_eq!(s(&replace_char_exec(&chars_of("a.b.c"), '.', &['/'])), "a/b/c");
    assert_eq!(s(&replace_all_exec(&chars_of("xx${a}yy${a}"), &chars_of("${a}"), &chars_of("Z"))), "xxZyyZ");
    assert_eq!(s(&replace_all_exec(&chars_of("aaa"), &chars_of("aa"), &chars_of("b"))), "ba");
}

#[test]
fn trim_and_words() {
    assert_eq!(s(&trim_exec(&chars_of("  \t mi mundo \n"))), "mi mundo");
    assert_eq!(s(&trim_exec(&chars_of("   "))), "");
    assert_eq!(s(&trim_exec(&chars_of("\u{3000}x\u{a0}"))), "x");
    let w: Vec<String> = words_exec(&chars_of("  --user ${auth}\t--v  x ")).iter().map(|p| s(p)).collect();
    assert_eq!(w, vec!["--user", "${auth}", "--v", "x"]);
    assert!(words_exec(&chars_of(" \n ")).is_empty());
    assert!(is_ws_exec('\u{2028}'));
    assert!(!is_ws_exec('x'));
}

#[test]
fn comparisons() {
    assert!(str_eq("abc", "abc"));
    assert!(!str_eq("abc", "abd"));
    assert!(starts_with(&chars_of("META-INF/x"), &chars_of("META-INF/")));
    assert!(!starts_with(&chars_of("META"), &chars_of("META-INF/")));
    assert!(ends_with(&chars_of("lib.so"), &chars_of(".so")));
    assert!(!ends_with(&chars_of("so"), &chars_of(".so")));
}

#[test]
fn decimal_and_join() {
    let mut out = Vec::new();
    push_decimal(&mut out, 0);
    assert_eq!(s(&out), "0");
    let mut out = Vec::new();
    push_decimal(&mut out, 4294967295);
    assert_eq!(s(&out), "4294967295");
    let parts = vec!["a".to_string(), "b".to_string(), "c".to_string()];
    assert_eq!(join_exec(&parts, &[':']), "a:b:c");
    assert_eq!(join_exec(&Vec::new(), &[':']), "");
}
