//! The Steam Linux Runtime images: their names and URLs, and the checksum of
//! the image for this machine, read from the published `SHA256SUMS`.

use vstd::prelude::*;
use crate::paths::ends_with_seq;
use crate::text::{first_pos_of, find_char, lines_of, split_lines, str_ends_with, str_eq, trim, trim_ws};

verus! {

/// The processor family a runtime image is built for.
#[derive(Debug, Clone, Copy, PartialEq, Eq, Structural)]
pub enum Arch {
    X86_64,
    Aarch64,
    /// Any other family: no image exists.
    Other,
}

/// Whether `c` is an ASCII hexadecimal digit.
pub open spec fn is_hex_digit(c: char) -> bool {
    ('0' <= c && c <= '9') || ('a' <= c && c <= 'f') || ('A' <= c && c <= 'F')
}

/// The release code of a runtime edition.
pub open spec fn edition_code(edition: Seq<char>) -> Option<Seq<char>> {
    if edition == "steamrt3"@ {
        Some("sniper"@)
    } else if edition == "steamrt4"@ {
        Some("4"@)
    } else {
        None
    }
}

/// The release code of a runtime edition: `sniper` for `steamrt3`, `4` for
/// `steamrt4`; other editions have none.
pub fn steamrt_code(edition: &str) -> (r: Option<&str>)
    ensures
        match r {
            Some(c) => edition_code(edition@) == Some(c@),
            None => edition_code(edition@) is None,
        },
{
    if str_eq(edition, "steamrt3") {
        Some("sniper")
    } else if str_eq(edition, "steamrt4") {
        Some("4")
    } else {
        None
    }
}

/// The archive of a runtime edition for a processor family.
pub open spec fn archive_name(edition: Seq<char>, arch: Arch) -> Option<Seq<char>> {
    match edition_code(edition) {
        Some(code) => match arch {
            Arch::X86_64 => Some("SteamLinuxRuntime_"@ + code + ".tar.xz"@),
            Arch::Aarch64 => Some("SteamLinuxRuntime_"@ + code + "-arm64.tar.xz"@),
            Arch::Other => None,
        },
        None => None,
    }
}

/// The archive of an edition is built from that edition's own code, so
/// editions with different codes get different archives on every family.
pub proof fn law_archive_name_from_own_code(e1: Seq<char>, e2: Seq<char>, arch: Arch)
    ensures
        edition_code(e1) matches Some(code) ==> archive_name(e1, Arch::X86_64) == Some("SteamLinuxRuntime_"@ + code + ".tar.xz"@),
        edition_code(e1) matches Some(code) ==> archive_name(e1, Arch::Aarch64) == Some("SteamLinuxRuntime_"@ + code + "-arm64.tar.xz"@),
        archive_name(e1, arch) is Some && archive_name(e1, arch) == archive_name(e2, arch) ==> edition_code(e1) == edition_code(e2),
{
    reveal_strlit("SteamLinuxRuntime_");
    reveal_strlit(".tar.xz");
    reveal_strlit("-arm64.tar.xz");
    if archive_name(e1, arch) is Some && archive_name(e1, arch) == archive_name(e2, arch) {
        let c1 = edition_code(e1).unwrap();
        let c2 = edition_code(e2).unwrap();
        let p = "SteamLinuxRuntime_"@;
        let x = if arch == Arch::X86_64 { ".tar.xz"@ } else { "-arm64.tar.xz"@ };
        let n1 = p + c1 + x;
        let n2 = p + c2 + x;
        assert(n1.subrange(p.len() as int, n1.len() - x.len()) =~= c1);
        assert(n2.subrange(p.len() as int, n2.len() - x.len()) =~= c2);
    }
}

/// The archive of a runtime edition for a processor family:
/// `SteamLinuxRuntime_{code}.tar.xz`, with `-arm64` before the extension on
/// ARM; none for an unknown edition or family.
pub fn steamrt_archive_name(edition: &str, arch: Arch) -> (r: Option<String>)
    ensures
        match r {
            Some(a) => archive_name(edition@, arch) == Some(a@),
            None => archive_name(edition@, arch) is None,
        },
{
    match steamrt_code(edition) {
        Some(code) => match arch {
            Arch::X86_64 => {
                let mut s = String::from_str("SteamLinuxRuntime_");
                s.append(code);
                s.append(".tar.xz");
                Some(s)
            },
            Arch::Aarch64 => {
                let mut s = String::from_str("SteamLinuxRuntime_");
                s.append(code);
                s.append("-arm64.tar.xz");
                Some(s)
            },
            Arch::Other => None,
        },
        None => None,
    }
}

/// The URL of a file of the images of `edition` on `branch`:
/// `https://repo.steampowered.com/{edition}/images/{branch}/{file}`.
pub fn steamrt_url(edition: &str, branch: &str, file: &str) -> (r: String)
    ensures
        r@ == "https://repo.steampowered.com/"@ + edition@ + "/images/"@ + branch@ + "/"@ + file@,
{
    let mut s = String::from_str("https://repo.steampowered.com/");
    s.append(edition);
    s.append("/images/");
    s.append(branch);
    s.append("/");
    s.append(file);
    s
}

/// The URL of the version file of the images of `edition` on `branch`;
/// none when either is empty.
pub fn steamrt_version_url(edition: &str, branch: &str) -> (r: Option<String>)
    ensures
        (edition@.len() == 0 || branch@.len() == 0) ==> r is None,
        (edition@.len() > 0 && branch@.len() > 0) ==> (r matches Some(u)
            && u@ == "https://repo.steampowered.com/"@ + edition@ + "/images/"@ + branch@ + "/"@ + "VERSION.txt"@),
{
    if edition.unicode_len() == 0 || branch.unicode_len() == 0 {
        None
    } else {
        Some(steamrt_url(edition, branch, "VERSION.txt"))
    }
}

/// The checksum and file name a line of `SHA256SUMS` gives: the trimmed
/// text before and after its first `*`.
pub open spec fn sums_entry(line: Seq<char>) -> Option<(Seq<char>, Seq<char>)> {
    let t = trim_ws(line);
    let p = first_pos_of(t, '*');
    if p < 0 {
        None
    } else {
        Some((trim_ws(t.subrange(0, p)), trim_ws(t.subrange(p + 1, t.len() as int))))
    }
}

/// Whether an image file is the one for `arch`.
pub open spec fn file_for_arch(file: Seq<char>, arch: Arch) -> bool {
    match arch {
        Arch::Aarch64 => ends_with_seq(file, "-arm64.tar.xz"@),
        Arch::X86_64 => ends_with_seq(file, ".tar.xz"@) && !ends_with_seq(file, "-arm64.tar.xz"@),
        Arch::Other => false,
    }
}

/// The checksum a line gives for `arch`: 64 hexadecimal digits naming an
/// image for that family.
pub open spec fn line_checksum(line: Seq<char>, arch: Arch) -> Option<Seq<char>> {
    match sums_entry(line) {
        Some((h, f)) => if h.len() == 64 && (forall|i: int| 0 <= i < h.len() ==> is_hex_digit(#[trigger] h[i]))
            && file_for_arch(f, arch) {
            Some(h)
        } else {
            None
        },
        None => None,
    }
}

/// The checksum that the first fitting line gives.
pub open spec fn first_checksum(lines: Seq<Seq<char>>, arch: Arch) -> Option<Seq<char>>
    decreases lines.len(),
{
    if lines.len() == 0 {
        None
    } else {
        match line_checksum(lines[0], arch) {
            Some(h) => Some(h),
            None => first_checksum(lines.drop_first(), arch),
        }
    }
}

/// The checksum taken from `SHA256SUMS` is 64 hexadecimal digits given by
/// the first line that fits the processor family; none is taken only when
/// no line fits.
pub proof fn law_checksum_from_first_fitting_line(lines: Seq<Seq<char>>, arch: Arch)
    ensures
        match first_checksum(lines, arch) {
            Some(h) => h.len() == 64 && (forall|i: int| 0 <= i < h.len() ==> is_hex_digit(#[trigger] h[i]))
                && exists|k: int| 0 <= k < lines.len() && line_checksum(#[trigger] lines[k], arch) == Some(h)
                    && forall|j: int| 0 <= j < k ==> line_checksum(#[trigger] lines[j], arch) is None,
            None => forall|k: int| 0 <= k < lines.len() ==> line_checksum(#[trigger] lines[k], arch) is None,
        },
    decreases lines.len(),
{
    if lines.len() > 0 {
        let rest = lines.drop_first();
        law_checksum_from_first_fitting_line(rest, arch);
        match line_checksum(lines[0], arch) {
            Some(h) => {
                assert(line_checksum(lines[0], arch) == Some(h));
            },
            None => {
                match first_checksum(rest, arch) {
                    Some(h) => {
                        let k = choose|k: int| 0 <= k < rest.len() && line_checksum(#[trigger] rest[k], arch) == Some(h)
                            && forall|j: int| 0 <= j < k ==> line_checksum(#[trigger] rest[j], arch) is None;
                        assert(lines[k + 1] == rest[k]);
                        assert forall|j: int| 0 <= j < k + 1 implies line_checksum(#[trigger] lines[j], arch) is None by {
                            if j > 0 {
                                assert(lines[j] == rest[j - 1]);
                            }
                        }
                    },
                    None => {
                        assert forall|k: int| 0 <= k < lines.len() implies line_checksum(#[trigger] lines[k], arch) is None by {
                            if k > 0 {
                                assert(lines[k] == rest[k - 1]);
                            }
                        }
                    },
                }
            },
        }
    }
}

fn all_hex(s: &str) -> (r: bool)
    ensures
        r == (forall|i: int| 0 <= i < s@.len() ==> is_hex_digit(#[trigger] s@[i])),
{
    let n = s.unicode_len();
    let mut i: usize = 0;
    while i < n
        invariant
            n == s@.len(),
            i <= n,
            forall|j: int| 0 <= j < i ==> is_hex_digit(#[trigger] s@[j]),
        decreases n - i,
    {
        let c = s.get_char(i);
        if !(('0' <= c && c <= '9') || ('a' <= c && c <= 'f') || ('A' <= c && c <= 'F')) {
            assert(!is_hex_digit(s@[i as int]));
            return false;
        }
        i += 1;
    }
    true
}

fn checksum_of_line(line: &str, arch: Arch) -> (r: Option<String>)
    ensures
        match r {
            Some(h) => line_checksum(line@, arch) == Some(h@),
            None => line_checksum(line@, arch) is None,
        },
{
    let t = trim(line);
    match find_char(t, '*') {
        None => None,
        Some(p) => {
            let n = t.unicode_len();
            let hash = trim(t.substring_char(0, p));
            let file = trim(t.substring_char(p + 1, n));
            if hash.unicode_len() == 64 && all_hex(hash) {
                let fits = match arch {
                    Arch::Aarch64 => str_ends_with(file, "-arm64.tar.xz"),
                    Arch::X86_64 => str_ends_with(file, ".tar.xz") && !str_ends_with(file, "-arm64.tar.xz"),
                    Arch::Other => false,
                };
                if fits {
                    Some(String::from_str(hash))
                } else {
                    None
                }
            } else {
                None
            }
        },
    }
}

/// The checksum of the image for `arch` in the text of `SHA256SUMS`: from
/// the first line that names such an image with 64 hexadecimal digits.
pub fn checksum_for_arch(sums: &str, arch: Arch) -> (r: Option<String>)
    ensures
        match r {
            Some(h) => first_checksum(lines_of(sums@), arch) == Some(h@),
            None => first_checksum(lines_of(sums@), arch) is None,
        },
{
    let lines = split_lines(sums);
    let ghost ls = lines@.map_values(|l: String| l@);
    let n = lines.len();
    let mut i: usize = 0;
    assert(ls.subrange(0, n as int) =~= ls);
    while i < n
        invariant
            n == lines@.len(),
            i <= n,
            ls == lines@.map_values(|l: String| l@),
            ls == lines_of(sums@),
            first_checksum(ls, arch) == first_checksum(ls.subrange(i as int, n as int), arch),
        decreases n - i,
    {
        assert(ls.subrange(i as int, n as int).drop_first() =~= ls.subrange(i + 1, n as int));
        assert(ls.subrange(i as int, n as int)[0] == lines@[i as int]@);
        match checksum_of_line(lines[i].as_str(), arch) {
            Some(h) => {
                return Some(h);
            },
            None => {},
        }
        i += 1;
    }
    assert(ls.subrange(n as int, n as int) =~= Seq::<Seq<char>>::empty());
    None
}

} // verus!
