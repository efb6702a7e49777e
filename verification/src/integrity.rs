//! Integrity lists of installed games: the files they name, how a file is
//! checked, and the run that checks every file and downloads it again when
//! the check fails. Reading files and downloading are done by the caller.

use vstd::prelude::*;
use crate::digest::{md5_checksum_matches, md5_matches};
use crate::kuro::{KuroIndex, KuroResource};
use crate::downloader::{Downloader, DEFAULT_CHUNK_SIZE};
use crate::text::parse_u64_spec;

verus! {

/// A file that an integrity list names: where it lies below the game
/// directory, its MD5 checksum, its size, and the URL its path is relative to.
#[derive(Debug, Clone, PartialEq, Eq)]
pub struct IntegrityFile {
    pub path: String,
    pub md5: String,
    pub size: u64,
    pub base_url: String,
}

/// How a file is checked.
#[derive(Debug, Clone, Copy, PartialEq, Eq, Structural)]
pub enum VerifyMode {
    /// Compare the size only.
    Fast,
    /// Compare the size, then the MD5 checksum of the contents.
    Full,
}

impl IntegrityFile {
    /// The full check of a file whose size on disk is `file_len` (`None` when
    /// its metadata cannot be read) and whose contents are `contents` (`None`
    /// when they cannot be read): the size must match, then the checksum.
    pub fn verify(&self, file_len: Option<u64>, contents: Option<&[u8]>) -> (r: bool)
        ensures
            r == (file_len == Some(self.size) && (match contents {
                Some(c) => md5_matches(c@, self.md5@),
                None => false,
            })),
    {
        match file_len {
            None => false,
            Some(len) => {
                if len != self.size {
                    false
                } else {
                    match contents {
                        Some(c) => md5_checksum_matches(c, self.md5.as_str()),
                        None => false,
                    }
                }
            },
        }
    }

    /// The fast check: only the size is compared.
    pub fn fast_verify(&self, file_len: Option<u64>) -> (r: bool)
        ensures
            r == (file_len == Some(self.size)),
    {
        match file_len {
            Some(len) => len == self.size,
            None => false,
        }
    }

    /// The URL the file is downloaded again from: `{base_url}/{path}`.
    pub fn repair_url(&self) -> (r: String)
        ensures
            r@ == self.base_url@ + "/"@ + self.path@,
    {
        let mut u = String::from_str(self.base_url.as_str());
        u.append("/");
        u.append(self.path.as_str());
        u
    }

    /// The download that fetches the file again from `{base_url}/{path}`,
    /// whole: a present output file is not continued. `content_length` is
    /// the `content-length` header of the server's HEAD response, if any.
    pub fn repair(&self, content_length: Option<&str>) -> (r: Downloader)
        requires
            content_length matches Some(t) ==> parse_u64_spec(t@) is Some,
        ensures
            r.uri_view() == self.base_url@ + "/"@ + self.path@,
            r.length_view() == (match content_length {
                Some(t) => parse_u64_spec(t@),
                None => None,
            }),
            r.chunk_size_view() == DEFAULT_CHUNK_SIZE,
            !r.continues(),
            r.checks_space(),
    {
        let url = self.repair_url();
        Downloader::from_head(url.as_str(), content_length).with_continue_downloading(false)
    }
}

/// The URL of the integrity list `file` below `res_list_url`.
pub fn integrity_list_url(res_list_url: &str, file: &str) -> (r: String)
    ensures
        r@ == res_list_url@ + "/"@ + file@,
{
    let mut u = String::from_str(res_list_url);
    u.append("/");
    u.append(file);
    u
}

/// One line of an integrity list as served: the file's path below the game
/// (`remoteName`), its MD5 checksum and its size (`fileSize`).
#[derive(Debug, Clone, PartialEq, Eq)]
pub struct RawIntegrityEntry {
    pub remote_name: String,
    pub md5: String,
    pub file_size: u64,
}

/// The integrity file a line of a list stands for.
pub open spec fn listed_file(e: RawIntegrityEntry, base: Seq<char>, f: IntegrityFile) -> bool {
    &&& f.path@ == e.remote_name@
    &&& f.md5@ == e.md5@
    &&& f.size == e.file_size
    &&& f.base_url@ == base
}

/// The integrity files of the parsed lines of a list, in order, each
/// relative to `res_list_url`.
pub fn integrity_files(entries: &Vec<RawIntegrityEntry>, res_list_url: &str) -> (r: Vec<IntegrityFile>)
    ensures
        r@.len() == entries@.len(),
        forall|i: int| 0 <= i < r@.len() ==> listed_file(#[trigger] entries@[i], res_list_url@, r@[i]),
{
    let n = entries.len();
    let mut out: Vec<IntegrityFile> = Vec::new();
    let mut i: usize = 0;
    while i < n
        invariant
            n == entries@.len(),
            i <= n,
            out@.len() == i,
            forall|k: int| 0 <= k < i ==> listed_file(#[trigger] entries@[k], res_list_url@, out@[k]),
        decreases n - i,
    {
        let e = &entries[i];
        out.push(IntegrityFile {
            path: String::from_str(e.remote_name.as_str()),
            md5: String::from_str(e.md5.as_str()),
            size: e.file_size,
            base_url: String::from_str(res_list_url),
        });
        i += 1;
    }
    out
}

/// The integrity list of a whole game.
pub fn game_list_name() -> (r: &'static str)
    ensures
        r@ == "pkg_version"@,
{
    "pkg_version"
}

/// The integrity list of the voice-over of `locale`:
/// `Audio_{locale}_pkg_version`.
pub fn audio_list_name(locale: &str) -> (r: String)
    ensures
        r@ == "Audio_"@ + locale@ + "_pkg_version"@,
{
    let mut s = String::from_str("Audio_");
    s.append(locale);
    s.append("_pkg_version");
    s
}

/// `s` without one leading `/` (as `strip_prefix('/')`, keeping `s` when it
/// has none).
pub open spec fn strip_one_slash(s: Seq<char>) -> Seq<char> {
    if s.len() > 0 && s[0] == '/' {
        s.drop_first()
    } else {
        s
    }
}

/// The integrity file a Kuro resource stands for.
pub open spec fn kuro_integrity_file(r: KuroResource, base: Seq<char>, f: IntegrityFile) -> bool {
    &&& f.path@ == strip_one_slash(r.dest@)
    &&& f.md5@ == r.md5@
    &&& f.size == r.size
    &&& f.base_url@ == base
}

/// The integrity files of a Kuro resource index, each relative to `res_list_url`.
pub fn kuro_integrity_files(index: &KuroIndex, res_list_url: &str) -> (r: Vec<IntegrityFile>)
    ensures
        r@.len() == index.resource@.len(),
        forall|i: int| 0 <= i < r@.len() ==> kuro_integrity_file(#[trigger] index.resource@[i], res_list_url@, r@[i]),
{
    let n = index.resource.len();
    let mut out: Vec<IntegrityFile> = Vec::new();
    let mut i: usize = 0;
    while i < n
        invariant
            n == index.resource@.len(),
            i <= n,
            out@.len() == i,
            forall|k: int| 0 <= k < i ==> kuro_integrity_file(#[trigger] index.resource@[k], res_list_url@, out@[k]),
        decreases n - i,
    {
        let res = &index.resource[i];
        let d = res.dest.as_str();
        let m = d.unicode_len();
        let path = if m > 0 && d.get_char(0) == '/' {
            d.substring_char(1, m)
        } else {
            d
        };
        proof {
            if d@.len() > 0 && d@[0] == '/' {
                assert(d@.subrange(1, m as int) =~= d@.drop_first());
            }
        }
        out.push(IntegrityFile {
            path: String::from_str(path),
            md5: String::from_str(res.md5.as_str()),
            size: res.size,
            base_url: String::from_str(res_list_url),
        });
        i += 1;
    }
    out
}

/// What a repair run asks the caller to do next.
#[derive(Debug, Clone, Copy, PartialEq, Eq, Structural)]
pub enum RepairStep {
    /// Check file `index` with the given mode and report the outcome.
    Verify { index: usize, mode: VerifyMode },
    /// Download file `index` again and report when done.
    Repair { index: usize },
    /// Every file has been handled.
    Finished,
}

/// A repair of every file of an integrity list, one file at a time: a file is
/// checked, and downloaded again only when its check fails.
pub struct Repairer {
    files: Vec<IntegrityFile>,
    mode: VerifyMode,
    next: usize,
    repairing: bool,
    repaired: Ghost<Seq<usize>>,
}

impl Repairer {
    /// The files of the run.
    pub closed spec fn files_view(&self) -> Seq<IntegrityFile> {
        self.files@
    }

    /// Files handled so far.
    pub closed spec fn position(&self) -> int {
        self.next as int
    }

    /// The check every file gets.
    pub closed spec fn mode_view(&self) -> VerifyMode {
        self.mode
    }

    /// Whether the current file failed its check and awaits its download.
    pub closed spec fn awaits_repair(&self) -> bool {
        self.repairing
    }

    /// Indices of the files that were asked to be downloaded again, in order.
    pub closed spec fn repaired_view(&self) -> Seq<usize> {
        self.repaired@
    }

    /// The run is consistent: it never goes past the end of the list, and a
    /// download is awaited only for a file that is still in the list.
    pub closed spec fn wf(&self) -> bool {
        &&& self.next <= self.files@.len()
        &&& self.repairing ==> self.next < self.files@.len()
        &&& forall|i: int| 0 <= i < self.repaired@.len() ==> #[trigger] self.repaired@[i] < self.next
        &&& forall|i: int, j: int| 0 <= i < j < self.repaired@.len() ==> self.repaired@[i] < self.repaired@[j]
    }

    /// The step the caller takes next.
    pub open spec fn step_spec(&self) -> RepairStep {
        if self.position() >= self.files_view().len() {
            RepairStep::Finished
        } else if self.awaits_repair() {
            RepairStep::Repair { index: self.position() as usize }
        } else {
            RepairStep::Verify { index: self.position() as usize, mode: self.mode_view() }
        }
    }

    /// Starts the repair of a game from its integrity list, `None` when the
    /// list could not be fetched (the repair then fails). Files are checked by
    /// size only when `is_fast`, else by size and checksum.
    pub fn repair_game(listing: Option<Vec<IntegrityFile>>, is_fast: bool) -> (r: Option<Repairer>)
        ensures
            listing is None ==> r is None,
            listing matches Some(files) ==> r matches Some(run) && run.wf() && run.files_view() == files@
                && run.position() == 0 && !run.awaits_repair() && run.repaired_view().len() == 0
                && run.mode_view() == (if is_fast { VerifyMode::Fast } else { VerifyMode::Full }),
    {
        match listing {
            None => None,
            Some(files) => Some(Repairer {
                files,
                mode: if is_fast { VerifyMode::Fast } else { VerifyMode::Full },
                next: 0,
                repairing: false,
                repaired: Ghost(Seq::empty()),
            }),
        }
    }

    /// Starts the repair of the audio of `locale` from its integrity list.
    /// It runs as a game repair does.
    pub fn repair_audio(listing: Option<Vec<IntegrityFile>>, is_fast: bool) -> (r: Option<Repairer>)
        ensures
            listing is None ==> r is None,
            listing matches Some(files) ==> r matches Some(run) && run.wf() && run.files_view() == files@
                && run.position() == 0 && !run.awaits_repair() && run.repaired_view().len() == 0
                && run.mode_view() == (if is_fast { VerifyMode::Fast } else { VerifyMode::Full }),
    {
        Self::repair_game(listing, is_fast)
    }

    /// The step the caller takes next.
    pub fn step(&self) -> (r: RepairStep)
        requires
            self.wf(),
        ensures
            r == self.step_spec(),
    {
        if self.next >= self.files.len() {
            RepairStep::Finished
        } else if self.repairing {
            RepairStep::Repair { index: self.next }
        } else {
            RepairStep::Verify { index: self.next, mode: self.mode }
        }
    }

    /// The file a step names.
    pub fn file(&self, index: usize) -> (r: &IntegrityFile)
        requires
            index < self.files_view().len(),
        ensures
            *r == self.files_view()[index as int],
    {
        &self.files[index]
    }

    /// Reports the outcome of the check the run asked for: a file that passed
    /// is done, a file that failed is downloaded next.
    pub fn verified(&mut self, ok: bool)
        requires
            old(self).wf(),
            old(self).step_spec() is Verify,
        ensures
            final(self).wf(),
            final(self).files_view() == old(self).files_view(),
            final(self).mode_view() == old(self).mode_view(),
            final(self).repaired_view() == old(self).repaired_view(),
            ok ==> final(self).position() == old(self).position() + 1 && !final(self).awaits_repair(),
            !ok ==> final(self).position() == old(self).position() && final(self).awaits_repair(),
    {
        let n = self.files.len();
        if ok {
            assert(self.next < n);
            self.next = self.next + 1;
        } else {
            self.repairing = true;
        }
    }

    /// Reports that the download the run asked for is done (whatever its
    /// outcome, as the list is not checked again); the next file follows.
    pub fn repaired(&mut self)
        requires
            old(self).wf(),
            old(self).step_spec() is Repair,
        ensures
            final(self).wf(),
            final(self).files_view() == old(self).files_view(),
            final(self).mode_view() == old(self).mode_view(),
            final(self).position() == old(self).position() + 1,
            !final(self).awaits_repair(),
            final(self).repaired_view() == old(self).repaired_view().push(old(self).position() as usize),
    {
        let n = self.files.len();
        assert(self.next < n);
        let ghost idx = self.next;
        self.repaired = Ghost(self.repaired@.push(idx));
        self.next = self.next + 1;
        self.repairing = false;
    }

    /// Whether the run has handled every file (the repair then succeeds).
    pub fn is_finished(&self) -> (r: bool)
        requires
            self.wf(),
        ensures
            r == (self.step_spec() is Finished),
    {
        self.next >= self.files.len()
    }
}

/// A file is downloaded again at most once in a run, and files are
/// downloaded again in list order.
pub proof fn law_each_file_repaired_once(run: Repairer)
    requires
        run.wf(),
    ensures
        forall|i: int, j: int| 0 <= i < j < run.repaired_view().len() ==> run.repaired_view()[i] < run.repaired_view()[j],
        forall|i: int| 0 <= i < run.repaired_view().len() ==> #[trigger] run.repaired_view()[i] < run.files_view().len(),
{
}

} // verus!
