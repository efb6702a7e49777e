//! File names and extensions of archives and downloads.

use vstd::prelude::*;
use crate::text::{last_path_sep, last_pos_of, matches_at, occurs_at, rfind_char, rfind_path_sep, str_ends_with};

verus! {

/// The text of each component of a path given by its components.
pub open spec fn component_views(c: Seq<String>) -> Seq<Seq<char>> {
    c.map_values(|s: String| s@)
}

/// The last segment of a path: what follows its last `/` or `\`.
pub open spec fn last_segment(p: Seq<char>) -> Seq<char> {
    p.subrange(last_path_sep(p) + 1, p.len() as int)
}

/// `s` ends with `suffix`.
pub open spec fn ends_with_seq(s: Seq<char>, suffix: Seq<char>) -> bool {
    suffix.len() <= s.len() && s.subrange(s.len() - suffix.len(), s.len() as int) == suffix
}

/// The extension of a file: `tar.gz` or `tar.xz` when its name ends so,
/// otherwise the text after the last dot of its name, and none without a dot.
pub open spec fn full_extension(p: Seq<char>) -> Option<Seq<char>> {
    let f = last_segment(p);
    if ends_with_seq(f, "tar.gz"@) {
        Some("tar.gz"@)
    } else if ends_with_seq(f, "tar.xz"@) {
        Some("tar.xz"@)
    } else if last_pos_of(f, '.') >= 0 {
        Some(f.subrange(last_pos_of(f, '.') + 1, f.len() as int))
    } else {
        None
    }
}

/// The extension of the file at `path`, with the two-part `tar.gz` and
/// `tar.xz` kept whole.
pub fn get_full_extension(path: &str) -> (r: Option<&str>)
    ensures
        match r {
            Some(e) => full_extension(path@) == Some(e@),
            None => full_extension(path@) is None,
        },
{
    let n = path.unicode_len();
    let start = match rfind_path_sep(path) {
        Some(p) => p + 1,
        None => 0,
    };
    let file = path.substring_char(start, n);
    assert(file@ =~= last_segment(path@));
    if str_ends_with(file, "tar.gz") {
        return Some("tar.gz");
    }
    if str_ends_with(file, "tar.xz") {
        return Some("tar.xz");
    }
    match rfind_char(file, '.') {
        Some(d) => {
            let m = file.unicode_len();
            Some(file.substring_char(d + 1, m))
        },
        None => None,
    }
}

/// The name a downloaded archive is saved under: `{stem}.{extension}`,
/// the extension taken from the name it was served under (`dxvk.tar.gz`,
/// `runner.tar.xz`). A served name without an extension is not accepted.
pub fn saved_archive_name(stem: &str, served_name: &str) -> (r: String)
    requires
        full_extension(served_name@) is Some,
    ensures
        full_extension(served_name@) matches Some(e) && r@ == stem@ + "."@ + e,
{
    let mut s = String::from_str(stem);
    s.append(".");
    match get_full_extension(served_name) {
        Some(e) => {
            s.append(e);
        },
        None => {},
    }
    s
}

/// A found extension is always a suffix of the file's name.
pub proof fn law_extension_is_suffix(p: Seq<char>)
    ensures
        full_extension(p) matches Some(e) ==> ends_with_seq(last_segment(p), e),
{
    let f = last_segment(p);
    if !ends_with_seq(f, "tar.gz"@) && !ends_with_seq(f, "tar.xz"@) && last_pos_of(f, '.') >= 0 {
        crate::text::lemma_last_pos_of_bounds(f, '.');
        let e = f.subrange(last_pos_of(f, '.') + 1, f.len() as int);
        assert(f.subrange(f.len() - e.len(), f.len() as int) =~= e);
    }
}

/// `s` with every occurrence of `from` replaced by `to`, matches taken
/// left to right without overlapping (as `str::replace` with a non-empty
/// pattern).
pub open spec fn replace_all(s: Seq<char>, from: Seq<char>, to: Seq<char>) -> Seq<char>
    decreases s.len(),
{
    if s.len() == 0 || from.len() == 0 {
        s
    } else if occurs_at(s, from, 0) {
        to + replace_all(s.subrange(from.len() as int, s.len() as int), from, to)
    } else {
        seq![s[0]] + replace_all(s.drop_first(), from, to)
    }
}

/// Replaces every occurrence of a non-empty `from` in `s` by `to`.
pub fn replace_str(s: &str, from: &str, to: &str) -> (r: String)
    requires
        from@.len() > 0,
    ensures
        r@ == replace_all(s@, from@, to@),
{
    let n = s.unicode_len();
    let m = from.unicode_len();
    let mut out = String::new();
    let mut i: usize = 0;
    assert(s@.subrange(0, n as int) =~= s@);
    while i < n
        invariant
            n == s@.len(),
            m == from@.len(),
            m > 0,
            i <= n,
            out@ + replace_all(s@.subrange(i as int, n as int), from@, to@) == replace_all(s@, from@, to@),
        decreases n - i,
    {
        let ghost rest = s@.subrange(i as int, n as int);
        if matches_at(s, from, i) {
            assert(rest.subrange(0, m as int) =~= s@.subrange(i as int, i + m));
            assert(occurs_at(rest, from@, 0));
            assert(rest.subrange(m as int, rest.len() as int) =~= s@.subrange(i + m, n as int));
            out.append(to);
            i = i + m;
        } else {
            assert(!occurs_at(rest, from@, 0)) by {
                if occurs_at(rest, from@, 0) {
                    assert(rest.subrange(0, m as int) =~= s@.subrange(i as int, i + m));
                }
            }
            assert(rest.drop_first() =~= s@.subrange(i + 1, n as int));
            let c = s.substring_char(i, i + 1);
            assert(c@ =~= seq![rest[0]]);
            out.append(c);
            i = i + 1;
        }
        assert(out@ + replace_all(s@.subrange(i as int, n as int), from@, to@) =~= replace_all(s@, from@, to@));
    }
    assert(s@.subrange(n as int, n as int) =~= Seq::<char>::empty());
    out
}

/// The DLL that comes with a downloaded loader executable: its path with
/// every `.exe` replaced by `.dll`.
pub fn loader_dll_path(exe_path: &str) -> (r: String)
    ensures
        r@ == replace_all(exe_path@, ".exe"@, ".dll"@),
{
    proof {
        reveal_strlit(".exe");
    }
    replace_str(exe_path, ".exe", ".dll")
}

} // verus!
