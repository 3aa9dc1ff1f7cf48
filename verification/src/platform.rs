//! The machine the launcher runs on, in Mojang's vocabulary, and the way the
//! launcher composes file-system paths on it.

use vstd::prelude::*;
use crate::text::{
    chars_of, push_all, replace_char, replace_char_exec, split_chars, split_on,
    str_eq, string_from_chars,
};

verus! {

/// Operating systems as Mojang's metadata names them.
#[derive(Clone, Copy, Debug, PartialEq, Eq, Structural)]
pub enum Os {
    Windows,
    Osx,
    Linux,
}

/// Mojang's name of an operating system.
pub open spec fn os_name(os: Os) -> Seq<char> {
    match os {
        Os::Windows => "windows"@,
        Os::Osx => "osx"@,
        Os::Linux => "linux"@,
    }
}

impl Os {
    pub fn name(&self) -> (r: &'static str)
        ensures
            r@ == os_name(*self),
    {
        match self {
            Os::Windows => "windows",
            Os::Osx => "osx",
            Os::Linux => "linux",
        }
    }
}

/// The platform a decision is made for: the operating system and the
/// architecture as Rust names it (`std::env::consts::ARCH`, e.g. `x86_64`).
#[derive(Clone, Debug)]
pub struct Platform {
    pub os: Os,
    pub arch: String,
}

/// The Mojang operating system of a Rust `target_os` name: `windows` and
/// `macos` are recognised, every other system counts as `linux`.
pub open spec fn os_of_target(target_os: Seq<char>) -> Os {
    if target_os == "windows"@ {
        Os::Windows
    } else if target_os == "macos"@ {
        Os::Osx
    } else {
        Os::Linux
    }
}

pub fn os_from_target(target_os: &str) -> (r: Os)
    ensures
        r == os_of_target(target_os@),
{
    if str_eq(target_os, "windows") {
        Os::Windows
    } else if str_eq(target_os, "macos") {
        Os::Osx
    } else {
        Os::Linux
    }
}

/// Mojang's architecture name of a Rust `target_arch` name.
pub open spec fn mojang_arch_of(target_arch: Seq<char>) -> Seq<char> {
    if target_arch == "x86_64"@ {
        "x64"@
    } else if target_arch == "aarch64"@ {
        "arm64"@
    } else if target_arch == "x86"@ {
        "x86"@
    } else {
        "unknown"@
    }
}

pub fn mojang_arch(target_arch: &str) -> (r: &'static str)
    ensures
        r@ == mojang_arch_of(target_arch@),
{
    if str_eq(target_arch, "x86_64") {
        "x64"
    } else if str_eq(target_arch, "aarch64") {
        "arm64"
    } else if str_eq(target_arch, "x86") {
        "x86"
    } else {
        "unknown"
    }
}

impl Platform {
    /// The platform named by Rust's `target_os` and `target_arch` strings.
    pub fn from_target(target_os: &str, target_arch: &str) -> (r: Platform)
        ensures
            r.os == os_of_target(target_os@),
            r.arch@ == target_arch@,
    {
        Platform { os: os_from_target(target_os), arch: target_arch.to_owned() }
    }
}

/// The character that separates path components when the launcher joins
/// paths: `\` on Windows, `/` elsewhere.
pub open spec fn path_sep(os: Os) -> char {
    if os == Os::Windows {
        '\\'
    } else {
        '/'
    }
}

/// Characters read as component separators: `/` everywhere, `\` too on Windows.
pub open spec fn is_sep(os: Os, c: char) -> bool {
    c == '/' || (os == Os::Windows && c == '\\')
}

pub fn is_sep_exec(os: Os, c: char) -> (r: bool)
    ensures
        r == is_sep(os, c),
{
    c == '/' || (os == Os::Windows && c == '\\')
}

/// ASCII letters: the drive letters that Windows paths know.
pub open spec fn is_ascii_letter(c: char) -> bool {
    ('a' <= c && c <= 'z') || ('A' <= c && c <= 'Z')
}

fn is_ascii_letter_exec(c: char) -> (r: bool)
    ensures
        r == is_ascii_letter(c),
{
    ('a' <= c && c <= 'z') || ('A' <= c && c <= 'Z')
}

/// The first index at or after `i` that holds a separator of a Windows path
/// (`\`, and `/` too unless the path is verbatim), or the length of `p`.
pub open spec fn next_sep(p: Seq<char>, i: int, verbatim: bool) -> int
    decreases p.len() - i,
{
    if i >= p.len() {
        p.len() as int
    } else if p[i] == '\\' || (!verbatim && p[i] == '/') {
        i
    } else {
        next_sep(p, i + 1, verbatim)
    }
}

fn next_sep_exec(p: &[char], i: usize, verbatim: bool) -> (r: usize)
    requires
        i <= p.len(),
    ensures
        r == next_sep(p@, i as int, verbatim),
        i <= r <= p.len(),
{
    let mut j: usize = i;
    while j < p.len() && !(p[j] == '\\' || (!verbatim && p[j] == '/'))
        invariant
            i <= j <= p.len(),
            next_sep(p@, j as int, verbatim) == next_sep(p@, i as int, verbatim),
        decreases p.len() - j,
    {
        j = j + 1;
    }
    j
}

/// Whether `p` begins with the verbatim marker `\\?\`.
pub open spec fn win_verbatim(p: Seq<char>) -> bool {
    p.len() >= 4 && p[0] == '\\' && p[1] == '\\' && p[2] == '?' && p[3] == '\\'
}

fn win_verbatim_exec(p: &[char]) -> (r: bool)
    ensures
        r == win_verbatim(p@),
{
    p.len() >= 4 && p[0] == '\\' && p[1] == '\\' && p[2] == '?' && p[3] == '\\'
}

/// The end of a `server\share` pair whose server starts at `start`: after
/// the share, or after the server where the share is empty.
pub open spec fn server_share_end(p: Seq<char>, start: int, verbatim: bool) -> int {
    let s1 = next_sep(p, start, verbatim);
    if s1 < p.len() && next_sep(p, s1 + 1, verbatim) > s1 + 1 {
        next_sep(p, s1 + 1, verbatim)
    } else {
        s1
    }
}

fn server_share_end_exec(p: &[char], start: usize, verbatim: bool) -> (r: usize)
    requires
        start <= p.len(),
    ensures
        r == server_share_end(p@, start as int, verbatim),
        r <= p.len(),
{
    let s1 = next_sep_exec(p, start, verbatim);
    if s1 < p.len() {
        let s2 = next_sep_exec(p, s1 + 1, verbatim);
        if s2 > s1 + 1 {
            s2
        } else {
            s1
        }
    } else {
        s1
    }
}

/// The length of the Windows prefix that `p` begins with, or 0 where it has
/// none: a drive `C:`, a share `\\server\share`, a device `\\.\name`, or one
/// of the verbatim forms `\\?\UNC\server\share`, `\\?\C:` and `\\?\name`.
/// Outside the verbatim forms `/` counts as a separator too.
pub open spec fn win_prefix_len(p: Seq<char>) -> int {
    if win_verbatim(p) {
        if p.len() >= 8 && p[4] == 'U' && p[5] == 'N' && p[6] == 'C' && is_sep(Os::Windows, p[7]) {
            server_share_end(p, 8, true)
        } else if p.len() >= 6 && is_ascii_letter(p[4]) && p[5] == ':' && (p.len() == 6 || is_sep(
            Os::Windows,
            p[6],
        )) {
            6
        } else {
            next_sep(p, 4, true)
        }
    } else if p.len() >= 2 && is_sep(Os::Windows, p[0]) && is_sep(Os::Windows, p[1]) {
        if p.len() >= 4 && p[2] == '.' && is_sep(Os::Windows, p[3]) {
            next_sep(p, 4, false)
        } else if 2 < next_sep(p, 2, false) < p.len() && server_share_end(p, 2, false) > next_sep(
            p,
            2,
            false,
        ) {
            server_share_end(p, 2, false)
        } else {
            0
        }
    } else if p.len() >= 2 && is_ascii_letter(p[0]) && p[1] == ':' {
        2
    } else {
        0
    }
}

fn win_prefix_len_exec(p: &[char]) -> (r: usize)
    ensures
        r == win_prefix_len(p@),
        r <= p.len(),
{
    let n: usize = p.len();
    if win_verbatim_exec(p) {
        if n >= 8 && p[4] == 'U' && p[5] == 'N' && p[6] == 'C' && is_sep_exec(Os::Windows, p[7]) {
            server_share_end_exec(p, 8, true)
        } else if n >= 6 && is_ascii_letter_exec(p[4]) && p[5] == ':' && (n == 6 || is_sep_exec(
            Os::Windows,
            p[6],
        )) {
            6
        } else {
            next_sep_exec(p, 4, true)
        }
    } else if n >= 2 && is_sep_exec(Os::Windows, p[0]) && is_sep_exec(Os::Windows, p[1]) {
        if n >= 4 && p[2] == '.' && is_sep_exec(Os::Windows, p[3]) {
            next_sep_exec(p, 4, false)
        } else {
            let s1 = next_sep_exec(p, 2, false);
            let e = server_share_end_exec(p, 2, false);
            if 2 < s1 && s1 < n && e > s1 {
                e
            } else {
                0
            }
        }
    } else if n >= 2 && is_ascii_letter_exec(p[0]) && p[1] == ':' {
        2
    } else {
        0
    }
}

/// The length of the prefix that `p` begins with on `os`; only Windows
/// paths have one.
pub open spec fn prefix_len(os: Os, p: Seq<char>) -> int {
    if os == Os::Windows {
        win_prefix_len(p)
    } else {
        0
    }
}

fn prefix_len_exec(os: Os, p: &[char]) -> (r: usize)
    ensures
        r == prefix_len(os, p@),
        r <= p.len(),
{
    if os == Os::Windows {
        win_prefix_len_exec(p)
    } else {
        0
    }
}

/// The pieces of `segs` that name a component: the non-empty ones, and
/// when `skip_dot` holds, not `.` either.
pub open spec fn named_pieces(segs: Seq<Seq<char>>, skip_dot: bool) -> Seq<Seq<char>>
    decreases segs.len(),
{
    if segs.len() == 0 {
        segs
    } else if segs.last().len() == 0 || (skip_dot && segs.last() == seq!['.']) {
        named_pieces(segs.drop_last(), skip_dot)
    } else {
        named_pieces(segs.drop_last(), skip_dot).push(segs.last())
    }
}

/// The contents of a list of character vectors.
pub open spec fn char_vecs(v: Seq<Vec<char>>) -> Seq<Seq<char>> {
    v.map_values(|x: Vec<char>| x@)
}

fn copy_chars(s: &[char]) -> (r: Vec<char>)
    ensures
        r@ == s@,
{
    let mut r: Vec<char> = Vec::new();
    push_all(&mut r, s);
    assert(r@ =~= s@);
    r
}

fn named_pieces_of(s: &[char], sep: char, skip_dot: bool) -> (out: Vec<Vec<char>>)
    ensures
        char_vecs(out@) == named_pieces(split_on(s@, sep), skip_dot),
{
    let segs = split_chars(s, sep);
    let ghost ss = split_on(s@, sep);
    let mut out: Vec<Vec<char>> = Vec::new();
    let mut i: usize = 0;
    assert(char_vecs(out@) =~= named_pieces(ss.take(0), skip_dot));
    while i < segs.len()
        invariant
            i <= segs@.len(),
            segs@.len() == ss.len(),
            forall|j: int| 0 <= j < segs@.len() ==> #[trigger] segs@[j]@ == ss[j],
            char_vecs(out@) == named_pieces(ss.take(i as int), skip_dot),
        decreases segs.len() - i,
    {
        let ghost t = ss.take(i + 1);
        proof {
            assert(t.drop_last() =~= ss.take(i as int));
            assert(t.last() == segs@[i as int]@);
        }
        let seg = &segs[i];
        let is_dot = seg.len() == 1 && seg[0] == '.';
        proof {
            if seg@.len() == 1 && seg@[0] == '.' {
                assert(seg@ =~= seq!['.']);
            }
            if !is_dot {
                assert(seg@.len() != 1 || seg@[0] != seq!['.'][0]);
            }
        }
        if !(seg.len() == 0 || (skip_dot && is_dot)) {
            let c = copy_chars(seg.as_slice());
            out.push(c);
            assert(char_vecs(out@) =~= named_pieces(t, skip_dot));
        } else {
            assert(char_vecs(out@) =~= named_pieces(t, skip_dot));
        }
        i = i + 1;
    }
    assert(ss.take(ss.len() as int) =~= ss);
    out
}

/// Whether a component is a plain name, neither `.` nor `..`.
pub open spec fn is_normal(c: Seq<char>) -> bool {
    c != seq!['.'] && c != seq!['.', '.']
}

fn is_normal_exec(c: &[char]) -> (r: bool)
    ensures
        r == is_normal(c@),
{
    let dot = c.len() == 1 && c[0] == '.';
    let dotdot = c.len() == 2 && c[0] == '.' && c[1] == '.';
    proof {
        if c@.len() == 1 && c@[0] == '.' {
            assert(c@ =~= seq!['.']);
        }
        if c@.len() == 2 && c@[0] == '.' && c@[1] == '.' {
            assert(c@ =~= seq!['.', '.']);
        }
        if !dot {
            assert(c@.len() != 1 || c@[0] != seq!['.'][0]);
        }
        if !dotdot {
            assert(c@.len() != 2 || c@[0] != seq!['.', '.'][0] || c@[1] != seq!['.', '.'][1]);
        }
    }
    !dot && !dotdot
}

/// `items` after the pieces `pieces` are applied in turn: `..` drops a
/// preceding plain name and is dropped itself where there is none; any
/// other piece is appended.
pub open spec fn apply_pieces(items: Seq<Seq<char>>, pieces: Seq<Seq<char>>) -> Seq<Seq<char>>
    decreases pieces.len(),
{
    if pieces.len() == 0 {
        items
    } else {
        let before = apply_pieces(items, pieces.drop_last());
        if pieces.last() == seq!['.', '.'] {
            if before.len() > 0 && is_normal(before.last()) {
                before.drop_last()
            } else {
                before
            }
        } else {
            before.push(pieces.last())
        }
    }
}

/// Each of `items` preceded by `\`.
pub open spec fn backslash_each(items: Seq<Seq<char>>) -> Seq<char>
    decreases items.len(),
{
    if items.len() == 0 {
        Seq::empty()
    } else {
        backslash_each(items.drop_last()) + seq!['\\'] + items.last()
    }
}

/// Whether the part of the Windows path `p` after its prefix begins with a
/// separator.
pub open spec fn win_rooted(p: Seq<char>) -> bool {
    win_prefix_len(p) < p.len() && is_sep(Os::Windows, p[win_prefix_len(p)])
}

/// `rel` under a verbatim `base`, resolved as `Path::join` resolves it: the
/// components of `base` (the non-empty pieces between `\` after its prefix
/// and root) take those of `rel` (the pieces between `\` or `/` that are
/// neither empty nor `.`) in turn, where a `rel` that begins with a
/// separator first drops all of them; the result is the prefix, a `\` for
/// a root that no component follows, and `\` before each component.
pub open spec fn verbatim_join(base: Seq<char>, rel: Seq<char>) -> Seq<char> {
    let n = win_prefix_len(base);
    let base_root = win_rooted(base);
    let rel_root = rel.len() > 0 && is_sep(Os::Windows, rel[0]);
    let start = if base_root {
        n + 1
    } else {
        n
    };
    let kept = if rel_root {
        Seq::empty()
    } else {
        named_pieces(split_on(base.skip(start), '\\'), false)
    };
    let items = apply_pieces(kept, named_pieces(split_on(unify_seps(Os::Windows, rel), '/'), true));
    base.take(n) + (if (base_root || rel_root) && items.len() == 0 {
        seq!['\\']
    } else {
        Seq::empty()
    }) + backslash_each(items)
}

fn verbatim_join_exec(base: &[char], rel: &[char]) -> (r: Vec<char>)
    requires
        win_verbatim(base@),
        rel.len() > 0,
    ensures
        r@ == verbatim_join(base@, rel@),
{
    let n = win_prefix_len_exec(base);
    let base_root = n < base.len() && is_sep_exec(Os::Windows, base[n]);
    let rel_root = is_sep_exec(Os::Windows, rel[0]);
    let start: usize = if base_root {
        n + 1
    } else {
        n
    };
    let mut items: Vec<Vec<char>> = if rel_root {
        Vec::new()
    } else {
        named_pieces_of(vstd::slice::slice_subrange(base, start, base.len()), '\\', false)
    };
    let ghost kept = char_vecs(items@);
    proof {
        if rel_root {
            assert(kept =~= Seq::<Seq<char>>::empty());
        } else {
            assert(base@.subrange(start as int, base@.len() as int) =~= base@.skip(start as int));
        }
    }
    let mut slash: Vec<char> = Vec::new();
    slash.push('/');
    assert(slash@ =~= seq!['/']);
    let unified = replace_char_exec(rel, '\\', slash.as_slice());
    let pieces = named_pieces_of(unified.as_slice(), '/', true);
    let ghost ps = char_vecs(pieces@);
    let mut k: usize = 0;
    assert(ps.take(0) =~= Seq::<Seq<char>>::empty());
    while k < pieces.len()
        invariant
            k <= pieces@.len(),
            ps == char_vecs(pieces@),
            char_vecs(items@) == apply_pieces(kept, ps.take(k as int)),
        decreases pieces.len() - k,
    {
        let ghost t = ps.take(k + 1);
        proof {
            assert(t.drop_last() =~= ps.take(k as int));
            assert(t.last() == pieces@[k as int]@);
        }
        let p = &pieces[k];
        let dotdot = p.len() == 2 && p[0] == '.' && p[1] == '.';
        proof {
            if p@.len() == 2 && p@[0] == '.' && p@[1] == '.' {
                assert(p@ =~= seq!['.', '.']);
            }
            if !dotdot {
                assert(p@.len() != 2 || p@[0] != seq!['.', '.'][0] || p@[1] != seq!['.', '.'][1]);
            }
        }
        if dotdot {
            if items.len() > 0 && is_normal_exec(items[items.len() - 1].as_slice()) {
                items.pop();
                assert(char_vecs(items@) =~= apply_pieces(kept, t));
            } else {
                assert(char_vecs(items@) =~= apply_pieces(kept, t));
            }
        } else {
            let c = copy_chars(p.as_slice());
            items.push(c);
            assert(char_vecs(items@) =~= apply_pieces(kept, t));
        }
        k = k + 1;
    }
    assert(ps.take(ps.len() as int) =~= ps);
    let ghost iv = char_vecs(items@);
    let mut out: Vec<char> = Vec::new();
    push_all(&mut out, vstd::slice::slice_subrange(base, 0, n));
    if (base_root || rel_root) && items.len() == 0 {
        out.push('\\');
    }
    let ghost head = out@;
    let mut j: usize = 0;
    assert(iv.take(0) =~= Seq::<Seq<char>>::empty());
    assert(head + backslash_each(iv.take(0)) =~= head);
    while j < items.len()
        invariant
            j <= items@.len(),
            iv == char_vecs(items@),
            out@ == head + backslash_each(iv.take(j as int)),
        decreases items.len() - j,
    {
        proof {
            assert(iv.take(j + 1).drop_last() =~= iv.take(j as int));
            assert(iv.take(j + 1).last() == items@[j as int]@);
        }
        out.push('\\');
        push_all(&mut out, items[j].as_slice());
        j = j + 1;
        assert(out@ =~= head + backslash_each(iv.take(j as int)));
    }
    assert(iv.take(iv.len() as int) =~= iv);
    proof {
        assert(base@.subrange(0, n as int) =~= base@.take(n as int));
        assert(unified@ == unify_seps(Os::Windows, rel@));
    }
    assert(out@ =~= verbatim_join(base@, rel@));
    out
}

/// Whether pushing onto `base` puts a separator first: `base` is not
/// empty, does not end with a separator and is not a bare drive like `C:`.
pub open spec fn needs_sep(os: Os, base: Seq<char>) -> bool {
    base.len() > 0 && !is_sep(os, base.last()) && !(os == Os::Windows && base.len() == 2
        && win_prefix_len(base) == 2)
}

/// `rel` under `base`, composed as `Path::join` composes them: a `rel` with
/// a prefix stands for itself; under a verbatim `base` the components are
/// resolved (`verbatim_join`); a `rel` that begins with a separator keeps
/// only the prefix of `base`; otherwise a separator goes between the two
/// where `needs_sep` says so.
pub open spec fn join_path(os: Os, base: Seq<char>, rel: Seq<char>) -> Seq<char> {
    if prefix_len(os, rel) > 0 {
        rel
    } else if os == Os::Windows && win_verbatim(base) && rel.len() > 0 {
        verbatim_join(base, rel)
    } else if rel.len() > 0 && is_sep(os, rel[0]) {
        base.take(prefix_len(os, base)) + rel
    } else if needs_sep(os, base) {
        base.push(path_sep(os)) + rel
    } else {
        base + rel
    }
}

pub fn join_path_chars(os: Os, base: &[char], rel: &[char]) -> (r: Vec<char>)
    ensures
        r@ == join_path(os, base@, rel@),
{
    let mut out: Vec<char> = Vec::new();
    if prefix_len_exec(os, rel) > 0 {
        push_all(&mut out, rel);
        assert(out@ =~= rel@);
        return out;
    }
    if os == Os::Windows && win_verbatim_exec(base) && rel.len() > 0 {
        return verbatim_join_exec(base, rel);
    }
    if rel.len() > 0 && is_sep_exec(os, rel[0]) {
        let bp = prefix_len_exec(os, base);
        push_all(&mut out, vstd::slice::slice_subrange(base, 0, bp));
        push_all(&mut out, rel);
        assert(base@.subrange(0, bp as int) =~= base@.take(bp as int));
        assert(out@ =~= base@.take(bp as int) + rel@);
        return out;
    }
    push_all(&mut out, base);
    let bare_drive = os == Os::Windows && base.len() == 2 && win_prefix_len_exec(base) == 2;
    if base.len() > 0 && !is_sep_exec(os, base[base.len() - 1]) && !bare_drive {
        out.push(if os == Os::Windows { '\\' } else { '/' });
        push_all(&mut out, rel);
        assert(out@ =~= base@.push(path_sep(os)) + rel@);
    } else {
        push_all(&mut out, rel);
        assert(out@ =~= base@ + rel@);
    }
    out
}

/// `rel` under `base`, as strings.
pub fn join(os: Os, base: &str, rel: &str) -> (r: String)
    ensures
        r@ == join_path(os, base@, rel@),
{
    let b = chars_of(base);
    let c = chars_of(rel);
    let v = join_path_chars(os, b.as_slice(), c.as_slice());
    string_from_chars(v.as_slice())
}

/// `path` with Windows' `\` read as `/`.
pub open spec fn unify_seps(os: Os, path: Seq<char>) -> Seq<char> {
    if os == Os::Windows {
        replace_char(path, '\\', seq!['/'])
    } else {
        path
    }
}

/// The pieces of `path` after its prefix that name components: split at
/// `/` (and on Windows at `\` too), empty pieces and `.` left out; after a
/// verbatim prefix only `\` separates and `.` is kept.
pub open spec fn path_pieces(os: Os, path: Seq<char>) -> Seq<Seq<char>> {
    let rest = path.skip(prefix_len(os, path));
    if os == Os::Windows && win_verbatim(path) {
        named_pieces(split_on(rest, '\\'), false)
    } else {
        named_pieces(split_on(unify_seps(os, rest), '/'), true)
    }
}

/// The final component of `path`, as `Path::file_name` gives it: the last
/// of its pieces, unless there is none or it is `.` or `..`.
pub open spec fn file_name(os: Os, path: Seq<char>) -> Option<Seq<char>> {
    let pieces = path_pieces(os, path);
    if pieces.len() == 0 || !is_normal(pieces.last()) {
        None
    } else {
        Some(pieces.last())
    }
}

pub fn file_name_chars(os: Os, path: &[char]) -> (r: Option<Vec<char>>)
    ensures
        match r {
            Some(v) => file_name(os, path@) == Some(v@),
            None => file_name(os, path@) is None,
        },
{
    let n = prefix_len_exec(os, path);
    let rest = vstd::slice::slice_subrange(path, n, path.len());
    assert(rest@ =~= path@.skip(n as int));
    let pieces = if os == Os::Windows && win_verbatim_exec(path) {
        named_pieces_of(rest, '\\', false)
    } else if os == Os::Windows {
        let mut slash: Vec<char> = Vec::new();
        slash.push('/');
        assert(slash@ =~= seq!['/']);
        let unified = replace_char_exec(rest, '\\', slash.as_slice());
        named_pieces_of(unified.as_slice(), '/', true)
    } else {
        named_pieces_of(rest, '/', true)
    };
    let ghost ps = path_pieces(os, path@);
    assert(char_vecs(pieces@) == ps);
    if pieces.len() == 0 {
        return None;
    }
    let last = &pieces[pieces.len() - 1];
    assert(last@ == ps.last());
    if !is_normal_exec(last.as_slice()) {
        return None;
    }
    Some(copy_chars(last.as_slice()))
}

/// The final component of `path`, as a string.
pub fn path_file_name(os: Os, path: &str) -> (r: Option<String>)
    ensures
        match r {
            Some(s) => file_name(os, path@) == Some(s@),
            None => file_name(os, path@) is None,
        },
{
    let p = chars_of(path);
    match file_name_chars(os, p.as_slice()) {
        Some(v) => Some(string_from_chars(v.as_slice())),
        None => None,
    }
}

} // verus!
