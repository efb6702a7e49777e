//! Games shipped as one archive: whether a staged archive can be kept, the
//! attempts made at downloading it, and the patch index that a patch archive
//! carries. Downloading, extracting and patching files are done by the
//! caller.

use vstd::prelude::*;
use crate::digest::{chksum_md5_hex, validate_checksum};
use crate::sophon::FailedChunk;
use crate::text::{ascii_lower, decimal, lines_of, split_lines, str_starts_with, trim, trim_ws, u64_to_decimal};
use crate::totals::{checked_total, checked_total_spec};

verus! {

/// How many times an archive download is tried.
pub const MAX_ATTEMPTS: usize = 3;

/// Whether an archive whose checksum is `hash` (empty when none is known)
/// and whose contents are `contents` passes the checksum.
pub open spec fn archive_valid(hash: Seq<char>, contents: Option<Seq<u8>>) -> bool {
    hash.len() > 0 && (match contents {
        Some(c) => chksum_md5_hex(c) == ascii_lower(hash),
        None => false,
    })
}

/// Whether an archive already in the staging directory is kept: it was
/// verified before in this session, or a checksum is known and it passes.
pub fn staged_archive_valid(already_verified: bool, hash: &str, contents: Option<&[u8]>) -> (r: bool)
    ensures
        r == (already_verified || archive_valid(hash@, match contents {
            Some(c) => Some(c@),
            None => None,
        })),
{
    if already_verified {
        true
    } else if hash.unicode_len() > 0 {
        validate_checksum(contents, hash)
    } else {
        false
    }
}

/// How one attempt at downloading the archive ended.
#[derive(Debug, Clone)]
pub enum AttemptResult {
    /// The download was cancelled before the attempt started.
    Cancelled,
    /// The request or the download failed with this message.
    Failed(String),
    /// The archive was downloaded; these are its contents as read back
    /// (`None` when they could not be read).
    Downloaded(Option<Vec<u8>>),
}

/// The attempts at downloading one archive.
#[derive(Debug, Clone)]
pub struct DownloadAttempts {
    attempts: usize,
    last_error: String,
    success: bool,
    done: bool,
}

/// The message kept when the checksum of attempt `n` (counted from 1) fails.
pub open spec fn mismatch_message(n: nat) -> Seq<char> {
    "Checksum mismatch on attempt "@ + decimal(n)
}

impl DownloadAttempts {
    /// Attempts made so far.
    pub closed spec fn attempts_view(&self) -> nat {
        self.attempts as nat
    }

    /// The message of the last failed attempt (empty before any failed).
    pub closed spec fn last_error_view(&self) -> Seq<char> {
        self.last_error@
    }

    /// Whether the archive was downloaded and passed its checksum.
    pub closed spec fn success_view(&self) -> bool {
        self.success
    }

    /// Whether no further attempt is made.
    pub closed spec fn done_view(&self) -> bool {
        self.done
    }

    /// Never more than the allowed attempts; unfinished runs have one left;
    /// success ends the run.
    pub open spec fn wf(&self) -> bool {
        &&& self.attempts_view() <= MAX_ATTEMPTS
        &&& !self.done_view() ==> self.attempts_view() < MAX_ATTEMPTS
        &&& self.success_view() ==> self.done_view()
    }

    /// No attempt made yet.
    pub fn new() -> (r: DownloadAttempts)
        ensures
            r.wf(),
            r.attempts_view() == 0,
            r.last_error_view() == Seq::<char>::empty(),
            !r.success_view(),
            !r.done_view(),
    {
        DownloadAttempts { attempts: 0, last_error: String::new(), success: false, done: false }
    }

    /// Records how the next attempt ended. `hash` is the archive's checksum,
    /// empty when none is known; a downloaded archive then counts as good.
    pub fn record(&mut self, result: AttemptResult, hash: &str)
        requires
            old(self).wf(),
            !old(self).done_view(),
        ensures
            final(self).wf(),
            match result {
                AttemptResult::Cancelled => {
                    &&& final(self).done_view()
                    &&& !final(self).success_view()
                    &&& final(self).attempts_view() == old(self).attempts_view()
                    &&& final(self).last_error_view() == old(self).last_error_view()
                },
                AttemptResult::Failed(e) => {
                    &&& final(self).attempts_view() == old(self).attempts_view() + 1
                    &&& final(self).last_error_view() == e@
                    &&& !final(self).success_view()
                    &&& final(self).done_view() == (final(self).attempts_view() == MAX_ATTEMPTS)
                },
                AttemptResult::Downloaded(c) => {
                    let good = hash@.len() == 0 || archive_valid(hash@, match c {
                        Some(v) => Some(v@),
                        None => None,
                    });
                    &&& final(self).attempts_view() == old(self).attempts_view() + 1
                    &&& final(self).success_view() == good
                    &&& good ==> final(self).done_view()
                        && final(self).last_error_view() == old(self).last_error_view()
                    &&& !good ==> final(self).last_error_view() == mismatch_message(final(self).attempts_view())
                        && final(self).done_view() == (final(self).attempts_view() == MAX_ATTEMPTS)
                },
            },
    {
        match result {
            AttemptResult::Cancelled => {
                self.done = true;
            },
            AttemptResult::Failed(e) => {
                self.attempts = self.attempts + 1;
                self.last_error = e;
                self.done = self.attempts == MAX_ATTEMPTS;
            },
            AttemptResult::Downloaded(c) => {
                self.attempts = self.attempts + 1;
                let good = if hash.unicode_len() == 0 {
                    true
                } else {
                    match &c {
                        Some(v) => validate_checksum(Some(v.as_slice()), hash),
                        None => validate_checksum(None, hash),
                    }
                };
                if good {
                    self.success = true;
                    self.done = true;
                } else {
                    let mut msg = String::from_str("Checksum mismatch on attempt ");
                    let n = u64_to_decimal(self.attempts as u64);
                    msg.append(n.as_str());
                    self.last_error = msg;
                    self.done = self.attempts == MAX_ATTEMPTS;
                }
            },
        }
    }

    /// Whether another attempt is to be made.
    pub fn wants_attempt(&self) -> (r: bool)
        ensures
            r == !self.done_view(),
    {
        !self.done
    }

    /// Whether the archive was downloaded and passed its checksum.
    pub fn succeeded(&self) -> (r: bool)
        ensures
            r == self.success_view(),
    {
        self.success
    }

    /// The failure reported for archive `file` once no attempt succeeded:
    /// the file stands for its own chunk, with the last error.
    pub fn failure(&self, file: &str) -> (r: Option<FailedChunk>)
        ensures
            self.success_view() ==> r is None,
            !self.success_view() ==> (r matches Some(f) && f.file_name@ == file@
                && f.chunk_name@ == file@ && f.error@ == self.last_error_view()),
    {
        if self.success {
            None
        } else {
            Some(FailedChunk {
                file_name: String::from_str(file),
                chunk_name: String::from_str(file),
                error: self.last_error.clone(),
            })
        }
    }
}

/// A run of attempts ends after at most `MAX_ATTEMPTS` attempts: each
/// attempt that does not end the run adds one, and the run is over once
/// the count reaches the limit.
pub proof fn law_attempts_bounded(a: DownloadAttempts)
    requires
        a.wf(),
    ensures
        a.attempts_view() <= MAX_ATTEMPTS,
        a.attempts_view() == MAX_ATTEMPTS ==> a.done_view(),
{
}

/// One patch that turns a file of the installed game into its new version.
#[derive(Debug, Clone, PartialEq, Eq)]
pub struct BeyondPatchEntry {
    /// The installed file the patch applies to, below the VFS base path.
    pub base_file: String,
    /// The patch file, below the archive's `vfs_patch` directory.
    pub patch: String,
}

/// A file of a patch archive.
#[derive(Debug, Clone, PartialEq, Eq)]
pub struct BeyondPatchFile {
    /// The file's path below the VFS base path.
    pub name: String,
    /// The size of the new file.
    pub size: u64,
    /// The patches that can produce it; none for a file shipped whole.
    pub patch: Option<Vec<BeyondPatchEntry>>,
}

/// The index (`patch.json`) of a patch archive.
#[derive(Debug, Clone, PartialEq, Eq)]
pub struct BeyondPatchIndex {
    /// The directory, below the game, that the files' names are relative to.
    pub vfs_base_path: String,
    pub files: Vec<BeyondPatchFile>,
}

/// The sizes of the files that are produced by a patch, in order.
pub open spec fn patched_sizes(files: Seq<BeyondPatchFile>) -> Seq<u64>
    decreases files.len(),
{
    if files.len() == 0 {
        Seq::empty()
    } else {
        let rest = patched_sizes(files.drop_last());
        if files.last().patch is Some {
            rest.push(files.last().size)
        } else {
            rest
        }
    }
}

/// The indices of the files that are produced by a patch, in order.
pub open spec fn patched_indices(files: Seq<BeyondPatchFile>) -> Seq<int>
    decreases files.len(),
{
    if files.len() == 0 {
        Seq::empty()
    } else {
        let rest = patched_indices(files.drop_last());
        if files.last().patch is Some {
            rest.push(files.len() - 1)
        } else {
            rest
        }
    }
}

impl BeyondPatchIndex {
    /// Bytes written by patching: the sum of the sizes of the files that
    /// carry patches; `None` when it does not fit in 64 bits.
    pub fn patch_total(&self) -> (r: Option<u64>)
        ensures
            r == checked_total_spec(patched_sizes(self.files@)),
    {
        let n = self.files.len();
        let mut sizes: Vec<u64> = Vec::new();
        let mut i: usize = 0;
        while i < n
            invariant
                n == self.files@.len(),
                i <= n,
                sizes@ == patched_sizes(self.files@.subrange(0, i as int)),
            decreases n - i,
        {
            let ghost next = self.files@.subrange(0, i + 1);
            assert(next.drop_last() =~= self.files@.subrange(0, i as int));
            if self.files[i].patch.is_some() {
                sizes.push(self.files[i].size);
            }
            i += 1;
        }
        assert(self.files@.subrange(0, n as int) =~= self.files@);
        checked_total(&sizes)
    }

    /// The indices of the files that are produced by a patch, in order.
    pub fn patched_files(&self) -> (r: Vec<usize>)
        ensures
            r@.len() == patched_indices(self.files@).len(),
            forall|k: int| 0 <= k < r@.len() ==> r@[k] as int == #[trigger] patched_indices(self.files@)[k],
    {
        let n = self.files.len();
        let mut out: Vec<usize> = Vec::new();
        let mut i: usize = 0;
        while i < n
            invariant
                n == self.files@.len(),
                i <= n,
                out@.len() == patched_indices(self.files@.subrange(0, i as int)).len(),
                forall|k: int| 0 <= k < out@.len() ==> out@[k] as int == #[trigger] patched_indices(self.files@.subrange(0, i as int))[k],
            decreases n - i,
        {
            let ghost pre = self.files@.subrange(0, i as int);
            let ghost next = self.files@.subrange(0, i + 1);
            assert(next.drop_last() =~= pre);
            if self.files[i].patch.is_some() {
                out.push(i);
            }
            i += 1;
        }
        assert(self.files@.subrange(0, n as int) =~= self.files@);
        out
    }
}

/// Whether `name` starts with `diff_`.
pub open spec fn is_diff_dir_name(name: Seq<char>) -> bool {
    "diff_"@.len() <= name.len() && name.subrange(0, "diff_"@.len() as int) == "diff_"@
}

/// The first entry of a directory listing, given as (name, is a directory),
/// that is a directory whose name starts with `diff_`.
pub open spec fn first_diff_dir(entries: Seq<(String, bool)>) -> Option<int>
    decreases entries.len(),
{
    if entries.len() == 0 {
        None
    } else {
        match first_diff_dir(entries.drop_last()) {
            Some(i) => Some(i),
            None => if entries.last().1 && is_diff_dir_name(entries.last().0@) {
                Some(entries.len() - 1)
            } else {
                None
            },
        }
    }
}

/// The directory below `vfs_patch` whose patches are used: the first entry
/// of the listing (name, is a directory) that is a directory named
/// `diff_...`; `None` when there is none.
pub fn diff_dir(entries: &Vec<(String, bool)>) -> (r: Option<String>)
    ensures
        match first_diff_dir(entries@) {
            Some(i) => r matches Some(d) && d@ == entries@[i].0@,
            None => r is None,
        },
{
    let n = entries.len();
    let mut i: usize = 0;
    while i < n
        invariant
            n == entries@.len(),
            i <= n,
            first_diff_dir(entries@.subrange(0, i as int)) is None,
        decreases n - i,
    {
        let ghost next = entries@.subrange(0, i + 1);
        assert(next.drop_last() =~= entries@.subrange(0, i as int));
        if entries[i].1 && str_starts_with(entries[i].0.as_str(), "diff_") {
            assert(first_diff_dir(next) == Some(i as int));
            proof {
                lemma_first_diff_dir_prefix(entries@, i + 1);
            }
            return Some(entries[i].0.clone());
        }
        i += 1;
    }
    assert(entries@.subrange(0, n as int) =~= entries@);
    None
}

/// Once a prefix holds the first `diff_` directory, the whole listing has it.
proof fn lemma_first_diff_dir_prefix(entries: Seq<(String, bool)>, i: int)
    requires
        0 <= i <= entries.len(),
        first_diff_dir(entries.subrange(0, i)) is Some,
    ensures
        first_diff_dir(entries) == first_diff_dir(entries.subrange(0, i)),
    decreases entries.len() - i,
{
    if i < entries.len() {
        assert(entries.subrange(0, i + 1).drop_last() =~= entries.subrange(0, i));
        lemma_first_diff_dir_prefix(entries, i + 1);
    } else {
        assert(entries.subrange(0, i) =~= entries);
    }
}

/// Whether a patch lies in the chosen `diff_` directory; with none chosen,
/// every patch is tried.
pub open spec fn patch_usable(patch: Seq<char>, diff_dir: Option<Seq<char>>) -> bool {
    match diff_dir {
        None => true,
        Some(d) => {
            let p = d + "/"@;
            p.len() <= patch.len() && patch.subrange(0, p.len() as int) == p
        },
    }
}

/// The indices, in order, of the patches of a file that are tried.
pub open spec fn usable_indices(entries: Seq<BeyondPatchEntry>, diff_dir: Option<Seq<char>>) -> Seq<int>
    decreases entries.len(),
{
    if entries.len() == 0 {
        Seq::empty()
    } else {
        let rest = usable_indices(entries.drop_last(), diff_dir);
        if patch_usable(entries.last().patch@, diff_dir) {
            rest.push(entries.len() - 1)
        } else {
            rest
        }
    }
}

/// The text of an optional string.
pub open spec fn opt_str_view(o: Option<&str>) -> Option<Seq<char>> {
    match o {
        Some(d) => Some(d@),
        None => None,
    }
}

/// The patches of a file that are tried, in order: those in the chosen
/// `diff_` directory (their path starts with `{diff_dir}/`), or all of them
/// when no such directory was found.
pub fn usable_patches(entries: &Vec<BeyondPatchEntry>, diff_dir: Option<&str>) -> (r: Vec<usize>)
    ensures
        r@.len() == usable_indices(entries@, opt_str_view(diff_dir)).len(),
        forall|k: int| 0 <= k < r@.len() ==> r@[k] as int == #[trigger] usable_indices(entries@, opt_str_view(diff_dir))[k],
{
    let ghost dd: Option<Seq<char>> = opt_str_view(diff_dir);
    let prefix: Option<String> = match diff_dir {
        Some(d) => {
            let mut p = String::from_str(d);
            p.append("/");
            Some(p)
        },
        None => None,
    };
    let n = entries.len();
    let mut out: Vec<usize> = Vec::new();
    let mut i: usize = 0;
    while i < n
        invariant
            n == entries@.len(),
            i <= n,
            dd == opt_str_view(diff_dir),
            match prefix {
                Some(p) => dd matches Some(d) && p@ == d + "/"@,
                None => dd is None,
            },
            out@.len() == usable_indices(entries@.subrange(0, i as int), dd).len(),
            forall|k: int| 0 <= k < out@.len() ==> out@[k] as int == #[trigger] usable_indices(entries@.subrange(0, i as int), dd)[k],
        decreases n - i,
    {
        let ghost next = entries@.subrange(0, i + 1);
        assert(next.drop_last() =~= entries@.subrange(0, i as int));
        let usable = match &prefix {
            Some(p) => str_starts_with(entries[i].patch.as_str(), p.as_str()),
            None => true,
        };
        assert(usable == patch_usable(entries@[i as int].patch@, dd));
        if usable {
            out.push(i);
        }
        i += 1;
    }
    assert(entries@.subrange(0, n as int) =~= entries@);
    out
}

/// The non-empty trimmed lines of `lines`, in order.
pub open spec fn nonempty_trimmed(lines: Seq<Seq<char>>) -> Seq<Seq<char>>
    decreases lines.len(),
{
    if lines.len() == 0 {
        Seq::empty()
    } else {
        let rest = nonempty_trimmed(lines.drop_last());
        let t = trim_ws(lines.last());
        if t.len() > 0 {
            rest.push(t)
        } else {
            rest
        }
    }
}

/// The files a patch deletes, from the text of its `delete_files.txt`: each
/// line, trimmed, that is not empty, in order. Each is a path below the game.
pub fn delete_targets(content: &str) -> (r: Vec<String>)
    ensures
        r@.map_values(|s: String| s@) == nonempty_trimmed(lines_of(content@)),
{
    let lines = split_lines(content);
    let ghost lv = lines@.map_values(|l: String| l@);
    let n = lines.len();
    let mut out: Vec<String> = Vec::new();
    let mut i: usize = 0;
    while i < n
        invariant
            n == lines@.len(),
            i <= n,
            lv == lines@.map_values(|l: String| l@),
            out@.map_values(|s: String| s@) == nonempty_trimmed(lv.subrange(0, i as int)),
        decreases n - i,
    {
        let ghost next = lv.subrange(0, i + 1);
        assert(next.drop_last() =~= lv.subrange(0, i as int));
        assert(next.last() == lines@[i as int]@);
        let t = trim(lines[i].as_str());
        if t.unicode_len() > 0 {
            let ghost before = out@.map_values(|s: String| s@);
            out.push(String::from_str(t));
            assert(out@.map_values(|s: String| s@) =~= before.push(t@));
        }
        i += 1;
    }
    assert(lv.subrange(0, n as int) =~= lv);
    out
}

} // verus!
