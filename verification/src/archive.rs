//! Extraction of downloaded archives: which format an archive has, where
//! each entry is written, which permission bits it gets, the order in which
//! workers take entries, and when progress is reported. Reading the archive
//! and writing files are done by the caller.

use vstd::prelude::*;
use crate::paths::{component_views, full_extension, get_full_extension};
use crate::text::str_eq;
use crate::totals::{checked_total, checked_total_spec};

verus! {

/// Bytes extracted between two progress reports (4 MiB).
pub const REPORT_EVERY: u64 = 4194304;

/// The archive formats that can be extracted.
#[derive(Debug, Clone, Copy, PartialEq, Eq, Structural)]
pub enum ArchiveKind {
    /// `.zip` and `.krzip`.
    Zip,
    /// `.tar.gz`.
    TarGz,
    /// `.tar.xz`.
    TarXz,
    /// `.7z`.
    SevenZip,
    /// Any other extension: nothing is extracted.
    Unsupported,
}

/// The format an extension names.
pub open spec fn kind_of_extension(e: Seq<char>) -> ArchiveKind {
    if e == "zip"@ || e == "krzip"@ {
        ArchiveKind::Zip
    } else if e == "tar.gz"@ {
        ArchiveKind::TarGz
    } else if e == "tar.xz"@ {
        ArchiveKind::TarXz
    } else if e == "7z"@ {
        ArchiveKind::SevenZip
    } else {
        ArchiveKind::Unsupported
    }
}

/// The format of the archive at `path`, read from its extension. A path
/// without an extension is not accepted.
pub fn archive_kind(path: &str) -> (r: ArchiveKind)
    requires
        full_extension(path@) is Some,
    ensures
        r == kind_of_extension(full_extension(path@)->0),
{
    match get_full_extension(path) {
        Some(e) => {
            if str_eq(e, "zip") || str_eq(e, "krzip") {
                ArchiveKind::Zip
            } else if str_eq(e, "tar.gz") {
                ArchiveKind::TarGz
            } else if str_eq(e, "tar.xz") {
                ArchiveKind::TarXz
            } else if str_eq(e, "7z") {
                ArchiveKind::SevenZip
            } else {
                ArchiveKind::Unsupported
            }
        },
        None => ArchiveKind::Unsupported,
    }
}

/// Where entries go: when the leading directory is stripped, the first
/// component of the first entry is that directory, and entries below it are
/// written without it; entries outside it, and the directory itself, are
/// skipped.
pub struct ExtractLayout {
    prefix_found: bool,
    top: Option<String>,
}

/// Where an entry with components `c` goes, given the stripped directory.
pub open spec fn placed(c: Seq<Seq<char>>, top: Option<Seq<char>>) -> Option<Seq<Seq<char>>> {
    match top {
        Some(t) => if c.len() > 1 && c[0] == t {
            Some(c.drop_first())
        } else {
            None
        },
        None => Some(c),
    }
}

impl ExtractLayout {
    /// Whether the directory to strip is already known.
    pub closed spec fn decided(&self) -> bool {
        self.prefix_found
    }

    /// The directory that is stripped, if any.
    pub closed spec fn top_view(&self) -> Option<Seq<char>> {
        match self.top {
            Some(t) => Some(t@),
            None => None,
        }
    }

    /// The layout at the start of an extraction; `strip_head_path` asks for
    /// the leading directory of the archive to be removed.
    pub fn new(strip_head_path: bool) -> (r: ExtractLayout)
        ensures
            r.decided() == !strip_head_path,
            r.top_view() is None,
    {
        ExtractLayout { prefix_found: !strip_head_path, top: None }
    }

    /// Where the next entry, with path components `components`, is written,
    /// relative to the destination; `None` when it is skipped.
    pub fn place(&mut self, components: &Vec<String>) -> (r: Option<Vec<String>>)
        ensures
            final(self).decided(),
            final(self).top_view() == (if !old(self).decided() && components@.len() > 0 {
                Some(components@[0]@)
            } else {
                old(self).top_view()
            }),
            match r {
                Some(rel) => placed(component_views(components@), final(self).top_view()) == Some(component_views(rel@)),
                None => placed(component_views(components@), final(self).top_view()) is None,
            },
    {
        if !self.prefix_found {
            if components.len() > 0 {
                self.top = Some(String::from_str(components[0].as_str()));
            }
            self.prefix_found = true;
        }
        match &self.top {
            Some(t) => {
                if components.len() > 1 && str_eq(components[0].as_str(), t.as_str()) {
                    let mut rel: Vec<String> = Vec::new();
                    let n = components.len();
                    let mut i: usize = 1;
                    while i < n
                        invariant
                            1 <= i <= n,
                            n == components@.len(),
                            component_views(rel@) =~= component_views(components@).subrange(1, i as int),
                        decreases n - i,
                    {
                        let ghost old_rel = rel@;
                        rel.push(String::from_str(components[i].as_str()));
                        assert(component_views(rel@) =~= component_views(old_rel).push(components@[i as int]@));
                        i += 1;
                    }
                    assert(component_views(components@).drop_first() =~= component_views(components@).subrange(1, n as int));
                    Some(rel)
                } else {
                    None
                }
            },
            None => {
                let mut rel: Vec<String> = Vec::new();
                let n = components.len();
                let mut i: usize = 0;
                while i < n
                    invariant
                        i <= n,
                        n == components@.len(),
                        component_views(rel@) =~= component_views(components@).subrange(0, i as int),
                    decreases n - i,
                {
                    let ghost old_rel = rel@;
                    rel.push(String::from_str(components[i].as_str()));
                    assert(component_views(rel@) =~= component_views(old_rel).push(components@[i as int]@));
                    i += 1;
                }
                Some(rel)
            },
        }
    }
}

/// A placed entry, put back under the stripped directory, is the entry.
pub proof fn law_placed_reassembles(c: Seq<Seq<char>>, top: Option<Seq<char>>)
    ensures
        placed(c, top) matches Some(rel) ==> match top {
            Some(t) => seq![t] + rel == c && rel.len() > 0,
            None => rel == c,
        },
{
    if let Some(t) = top {
        if c.len() > 1 && c[0] == t {
            assert(seq![t] + c.drop_first() =~= c);
        }
    }
}

/// With a stripped top directory `t`, every entry below it (at least two
/// components, the first being `t`) is written at its remaining components;
/// only the top directory itself and entries outside it are skipped. With
/// nothing stripped, every entry is written where the archive puts it.
pub proof fn law_entries_below_the_top_are_placed(c: Seq<Seq<char>>, t: Seq<char>)
    ensures
        c.len() >= 2 && c[0] == t ==> placed(c, Some(t)) == Some(c.drop_first()),
        placed(c, Some(t)) is None <==> (c.len() < 2 || c[0] != t),
        placed(c, None) == Some(c),
{
}

/// The Unix permission bits a 7z entry carries in the high half of its
/// attributes, when the Unix flag is set and they are not all zero.
pub open spec fn unix_mode_of(a: u32) -> Option<u32> {
    if a & 0x8000_0000u32 != 0 && (a >> 16u32) & 0x7FFFu32 != 0 {
        Some((a >> 16u32) & 0x7FFFu32)
    } else {
        None
    }
}

/// The Windows attributes of a 7z entry: the low half when the Unix flag is
/// set, else all of it; none when zero.
pub open spec fn windows_attributes_of(a: u32) -> Option<u32> {
    let w = if a & 0x8000_0000u32 != 0 { a & 0xFFFFu32 } else { a };
    if w != 0 {
        Some(w)
    } else {
        None
    }
}

/// Unix permission bits of a 7z entry.
pub fn seven_zip_unix_mode(attributes: Option<u32>) -> (r: Option<u32>)
    ensures
        r == (match attributes {
            Some(a) => unix_mode_of(a),
            None => None,
        }),
{
    match attributes {
        Some(a) => {
            if a & 0x8000_0000u32 != 0 {
                let m = (a >> 16u32) & 0x7FFFu32;
                if m != 0 {
                    Some(m)
                } else {
                    None
                }
            } else {
                None
            }
        },
        None => None,
    }
}

/// Windows attributes of a 7z entry.
pub fn seven_zip_windows_attributes(attributes: Option<u32>) -> (r: Option<u32>)
    ensures
        r == (match attributes {
            Some(a) => windows_attributes_of(a),
            None => None,
        }),
{
    match attributes {
        Some(a) => {
            let w = if a & 0x8000_0000u32 != 0 { a & 0xFFFFu32 } else { a };
            if w != 0 {
                Some(w)
            } else {
                None
            }
        },
        None => None,
    }
}

/// Whether Windows attributes mark a file read-only.
pub fn is_readonly(attributes: u32) -> (r: bool)
    ensures
        r == (attributes & 1u32 != 0),
{
    attributes & 1u32 != 0
}

/// The permission bits of a mode that are applied to an extracted file.
pub fn permission_bits(mode: u32) -> (r: u32)
    ensures
        r == mode & 0o7777u32,
        r <= 0o7777u32,
{
    assert(mode & 0o7777u32 <= 0o7777u32) by (bit_vector);
    mode & 0o7777u32
}

/// A mode taken from a 7z entry is a nonzero value of at most 15 bits.
pub proof fn law_unix_mode_bounds(a: u32)
    ensures
        unix_mode_of(a) matches Some(m) ==> 0 < m && m <= 0x7FFFu32,
{
    assert((a >> 16u32) & 0x7FFFu32 <= 0x7FFFu32) by (bit_vector);
}

/// Whether progress is reported after `done` bytes when it was last reported
/// at `last`: at least 4 MiB must have been extracted since.
pub fn should_report(done: u64, last: u64) -> (r: bool)
    ensures
        r == (done >= last && done - last >= REPORT_EVERY),
{
    let d = if done >= last { done - last } else { 0 };
    d >= REPORT_EVERY
}

/// Total size of the entries of an archive, or `None` when it exceeds a `u64`.
pub fn total_entry_size(sizes: &Vec<u64>) -> (r: Option<u64>)
    ensures
        r == checked_total_spec(sizes@),
{
    checked_total(sizes)
}

/// The order in which extraction workers take the entries of sizes `sizes`:
/// every entry once, largest first.
pub fn extraction_order(sizes: &Vec<u64>) -> (r: Vec<usize>)
    ensures
        r@.len() == sizes@.len(),
        forall|k: int| 0 <= k < r@.len() ==> #[trigger] r@[k] < sizes@.len(),
        forall|k: int, l: int| 0 <= k < l < r@.len() ==> r@[k] != r@[l],
        forall|k: int, l: int| 0 <= k < l < r@.len() ==> sizes@[r@[k] as int] >= sizes@[r@[l] as int],
{
    let n = sizes.len();
    let mut out: Vec<usize> = Vec::new();
    let mut i: usize = 0;
    while i < n
        invariant
            n == sizes@.len(),
            i <= n,
            out@.len() == i,
            forall|k: int| 0 <= k < out@.len() ==> #[trigger] out@[k] < i,
            forall|k: int, l: int| 0 <= k < l < out@.len() ==> out@[k] != out@[l],
            forall|k: int, l: int| 0 <= k < l < out@.len() ==> sizes@[out@[k] as int] >= sizes@[out@[l] as int],
        decreases n - i,
    {
        let s = sizes[i];
        let mut p: usize = 0;
        while p < out.len() && sizes[out[p]] >= s
            invariant
                p <= out@.len(),
                out@.len() == i,
                n == sizes@.len(),
                i < n,
                s == sizes@[i as int],
                forall|k: int| 0 <= k < out@.len() ==> #[trigger] out@[k] < i,
                forall|k: int| 0 <= k < p ==> sizes@[out@[k] as int] >= s,
            decreases out@.len() - p,
        {
            p += 1;
        }
        let ghost before = out@;
        proof {
            assert forall|k: int| p <= k < before.len() implies sizes@[before[k] as int] < s by {
                if p < before.len() {
                    assert(sizes@[before[p as int] as int] < s);
                    if k > p {
                        assert(sizes@[before[p as int] as int] >= sizes@[before[k] as int]);
                    }
                }
            }
        }
        out.insert(p, i);
        assert(out@ == before.insert(p as int, i));
        assert forall|k: int, l: int| 0 <= k < l < out@.len() implies sizes@[out@[k] as int] >= sizes@[out@[l] as int] by {
            if k < p as int && l < p as int {
                assert(out@[k] == before[k] && out@[l] == before[l]);
            } else if k < p as int && l == p as int {
                assert(out@[k] == before[k]);
            } else if k < p as int {
                assert(out@[k] == before[k] && out@[l] == before[l - 1]);
            } else if k == p as int {
                assert(out@[l] == before[l - 1]);
            } else {
                assert(out@[k] == before[k - 1] && out@[l] == before[l - 1]);
            }
        }
        assert forall|k: int, l: int| 0 <= k < l < out@.len() implies out@[k] != out@[l] by {
            if k < p as int && l < p as int {
                assert(out@[k] == before[k] && out@[l] == before[l]);
            } else if k < p as int && l == p as int {
                assert(out@[k] == before[k]);
            } else if k < p as int {
                assert(out@[k] == before[k] && out@[l] == before[l - 1]);
            } else if k == p as int {
                assert(out@[l] == before[l - 1]);
            } else {
                assert(out@[k] == before[k - 1] && out@[l] == before[l - 1]);
            }
        }
        assert forall|k: int| 0 <= k < out@.len() implies #[trigger] out@[k] < i + 1 by {
            if k < p as int {
                assert(out@[k] == before[k]);
            } else if k > p as int {
                assert(out@[k] == before[k - 1]);
            }
        }
        i += 1;
    }
    out
}

} // verus!
