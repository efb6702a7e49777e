//! The run that installs or repairs one file of a Sophon manifest: the
//! check of the staged copy, the download of each chunk with its retries,
//! the MD5 check and zstd decompression of each chunk, the writes at the
//! chunks' offsets, and the check of the assembled file with its
//! re-assemblies. The caller performs each action and reports what came of
//! it.

use vstd::prelude::*;
use crate::digest::chksum_md5_hex;
use crate::sophon::{
    chunk_sizes, is_directory, validation_step, zstd_decoded, FailedChunk, SophonChunk, SophonFile, ValidationStep,
    VALIDATION_RETRIES,
};
use crate::text::ascii_lower;
use crate::totals::checked_total_spec;

verus! {

/// How many times a chunk whose download fails is requested.
pub const CHUNK_DOWNLOADS: usize = 3;

/// Where the run of one file stands.
#[derive(Debug, Clone, Copy, PartialEq, Eq, Structural)]
pub enum JobStage {
    /// The staged copy has not been looked at.
    Start,
    /// The file is being (re)created with its full length, before assembly
    /// number `rounds` (0 for the first).
    Creating { rounds: usize },
    /// Chunk `chunk` is being downloaded; `downloads` downloads of it failed.
    Fetching { chunk: usize, downloads: usize, rounds: usize },
    /// The decoded chunk `chunk` is being written into the file.
    Writing { chunk: usize, rounds: usize },
    /// The file is being read for its check, after `rounds` re-assemblies.
    Checking { rounds: usize },
    /// Nothing more is done.
    Finished,
}

/// What the caller reports.
#[derive(Debug, Clone)]
pub enum JobEvent {
    /// The staged copy: whether this session already verified the file, its
    /// length (`None` when missing) and, unless the check is by size, its
    /// contents (`None` when missing or unreadable).
    Staged { already_verified: bool, on_disk_len: Option<u64>, contents: Option<Vec<u8>> },
    /// The file was created with its full length.
    Created,
    /// The request for the chunk could not be set up, with this message.
    ConnectFailed(String),
    /// The chunk's download failed, with this message.
    DownloadFailed(String),
    /// The chunk was downloaded; its bytes as read back (`None` if unreadable).
    Downloaded(Option<Vec<u8>>),
    /// The chunk's bytes were written.
    Written,
    /// The file as read for its check (`None` when missing or unreadable).
    Read(Option<Vec<u8>>),
}

/// What the caller does next.
#[derive(Debug, Clone)]
pub enum JobAction {
    /// Nothing: the entry is a directory.
    Skip,
    /// Remove any copy of the file and create it with `size` bytes.
    Create { size: u64 },
    /// Download chunk `chunk` of the file.
    Fetch { chunk: usize },
    /// Write `data` into the file at `offset`.
    Write { offset: u64, data: Vec<u8> },
    /// Read the file for its check.
    Read,
    /// The file is good: count its size as installed and `credit_download`
    /// bytes as downloaded, remove its chunks, and record it as verified in
    /// this session when `mark_verified`.
    Accept { mark_verified: bool, credit_download: u64 },
    /// Leave the file for a later repair.
    GiveUp,
}

/// A report as plain values.
pub enum EventView {
    Staged { already_verified: bool, on_disk_len: Option<u64>, contents: Option<Seq<u8>> },
    Created,
    ConnectFailed(Seq<char>),
    DownloadFailed(Seq<char>),
    Downloaded(Option<Seq<u8>>),
    Written,
    Read(Option<Seq<u8>>),
}

/// An action as plain values.
pub enum ActionView {
    Skip,
    Create { size: u64 },
    Fetch { chunk: usize },
    Write { offset: u64, data: Seq<u8> },
    Read,
    Accept { mark_verified: bool, credit_download: u64 },
    GiveUp,
}

/// The run as plain values: its stage, whether the session had verified the
/// file, whether the file was assembled in this run, and the chunks that
/// could not be had as (file, chunk, message).
pub struct JobView {
    pub stage: JobStage,
    pub already_verified: bool,
    pub downloaded: bool,
    pub failures: Seq<(Seq<char>, Seq<char>, Seq<char>)>,
}

pub open spec fn opt_bytes(o: Option<Vec<u8>>) -> Option<Seq<u8>> {
    match o {
        Some(v) => Some(v@),
        None => None,
    }
}

impl View for JobEvent {
    type V = EventView;

    open spec fn view(&self) -> EventView {
        match self {
            JobEvent::Staged { already_verified, on_disk_len, contents } => EventView::Staged {
                already_verified: *already_verified,
                on_disk_len: *on_disk_len,
                contents: opt_bytes(*contents),
            },
            JobEvent::Created => EventView::Created,
            JobEvent::ConnectFailed(e) => EventView::ConnectFailed(e@),
            JobEvent::DownloadFailed(e) => EventView::DownloadFailed(e@),
            JobEvent::Downloaded(b) => EventView::Downloaded(opt_bytes(*b)),
            JobEvent::Written => EventView::Written,
            JobEvent::Read(b) => EventView::Read(opt_bytes(*b)),
        }
    }
}

impl View for JobAction {
    type V = ActionView;

    open spec fn view(&self) -> ActionView {
        match self {
            JobAction::Skip => ActionView::Skip,
            JobAction::Create { size } => ActionView::Create { size: *size },
            JobAction::Fetch { chunk } => ActionView::Fetch { chunk: *chunk },
            JobAction::Write { offset, data } => ActionView::Write { offset: *offset, data: data@ },
            JobAction::Read => ActionView::Read,
            JobAction::Accept { mark_verified, credit_download } => ActionView::Accept {
                mark_verified: *mark_verified,
                credit_download: *credit_download,
            },
            JobAction::GiveUp => ActionView::GiveUp,
        }
    }
}

/// Whether the staged copy passes: by length with `is_fast`, else by MD5.
pub open spec fn staged_ok(f: SophonFile, is_fast: bool, len: Option<u64>, contents: Option<Seq<u8>>) -> bool {
    if is_fast {
        len == Some(f.size)
    } else {
        file_ok(f, contents)
    }
}

/// Whether contents pass the file's MD5 checksum.
pub open spec fn file_ok(f: SophonFile, contents: Option<Seq<u8>>) -> bool {
    match contents {
        Some(c) => chksum_md5_hex(c) == ascii_lower(f.md5@),
        None => false,
    }
}

/// What a downloaded chunk contributes: its zstd decompression when its
/// bytes pass the chunk's MD5 checksum.
pub open spec fn chunk_payload(c: SophonChunk, bytes: Option<Seq<u8>>) -> Option<Seq<u8>> {
    match bytes {
        Some(d) => if c.download_valid(Some(d)) { zstd_decoded(d) } else { None },
        None => None,
    }
}

/// The compressed size credited for a file that needed no download (0 when
/// the sum of its chunks overflows).
pub open spec fn compressed_credit(f: SophonFile) -> u64 {
    match checked_total_spec(chunk_sizes(f.chunks@)) {
        Some(v) => v,
        None => 0,
    }
}

/// After chunk `next - 1` is handled: the next chunk, or the check.
pub open spec fn after_chunk(f: SophonFile, next: int, rounds: usize) -> (JobStage, ActionView) {
    if 0 <= next < f.chunks@.len() {
        (JobStage::Fetching { chunk: next as usize, downloads: 0, rounds }, ActionView::Fetch { chunk: next as usize })
    } else {
        (JobStage::Checking { rounds }, ActionView::Read)
    }
}

/// A failure recorded for chunk `c` of file `f`.
pub open spec fn failure(f: SophonFile, c: int, e: Seq<char>) -> (Seq<char>, Seq<char>, Seq<char>) {
    (f.name@, f.chunks@[c].chunk_name@, e)
}

/// Whether the run in stage `s` takes report `e`.
pub open spec fn accepts(s: JobStage, e: EventView) -> bool {
    match s {
        JobStage::Start => e is Staged,
        JobStage::Creating { .. } => e is Created,
        JobStage::Fetching { .. } => e is ConnectFailed || e is DownloadFailed || e is Downloaded,
        JobStage::Writing { .. } => e is Written,
        JobStage::Checking { .. } => e is Read,
        JobStage::Finished => false,
    }
}

/// The run of file `f` after report `e` in state `v`, and the action it asks for.
pub open spec fn job_next(f: SophonFile, is_fast: bool, v: JobView, e: EventView) -> (JobView, ActionView) {
    let keep = |stage: JobStage| JobView { stage, ..v };
    match v.stage {
        JobStage::Start => match e {
            EventView::Staged { already_verified, on_disk_len, contents } => {
                let w = JobView { already_verified, ..v };
                if is_directory(f) {
                    (JobView { stage: JobStage::Finished, ..w }, ActionView::Skip)
                } else if already_verified || staged_ok(f, is_fast, on_disk_len, contents) {
                    (JobView { stage: JobStage::Checking { rounds: 0 }, downloaded: false, ..w }, ActionView::Read)
                } else {
                    (JobView { stage: JobStage::Creating { rounds: 0 }, downloaded: true, ..w }, ActionView::Create { size: f.size })
                }
            },
            _ => (v, ActionView::Skip),
        },
        JobStage::Creating { rounds } => {
            let (s, a) = after_chunk(f, 0, rounds);
            (keep(s), a)
        },
        JobStage::Fetching { chunk, downloads, rounds } => match e {
            EventView::ConnectFailed(m) => {
                let (s, a) = after_chunk(f, chunk + 1, rounds);
                (JobView { stage: s, failures: v.failures.push(failure(f, chunk as int, m)), ..v }, a)
            },
            EventView::DownloadFailed(m) => if downloads + 1 < CHUNK_DOWNLOADS {
                (keep(JobStage::Fetching { chunk, downloads: (downloads + 1) as usize, rounds }), ActionView::Fetch { chunk })
            } else {
                let (s, a) = after_chunk(f, chunk + 1, rounds);
                (JobView { stage: s, failures: v.failures.push(failure(f, chunk as int, m)), ..v }, a)
            },
            EventView::Downloaded(b) => match chunk_payload(f.chunks@[chunk as int], b) {
                Some(data) => (keep(JobStage::Writing { chunk, rounds }), ActionView::Write {
                    offset: f.chunks@[chunk as int].chunk_on_file_offset,
                    data,
                }),
                None => {
                    let (s, a) = after_chunk(f, chunk + 1, rounds);
                    (keep(s), a)
                },
            },
            _ => (v, ActionView::Skip),
        },
        JobStage::Writing { chunk, rounds } => {
            let (s, a) = after_chunk(f, chunk + 1, rounds);
            (keep(s), a)
        },
        JobStage::Checking { rounds } => match e {
            EventView::Read(c) => {
                let valid = if rounds == 0 { v.already_verified || file_ok(f, c) } else { file_ok(f, c) };
                if valid {
                    if rounds == 0 {
                        (keep(JobStage::Finished), ActionView::Accept {
                            mark_verified: !v.already_verified,
                            credit_download: if v.downloaded { 0 } else { compressed_credit(f) },
                        })
                    } else {
                        (keep(JobStage::Finished), ActionView::Accept { mark_verified: false, credit_download: 0 })
                    }
                } else if rounds < VALIDATION_RETRIES {
                    (keep(JobStage::Creating { rounds: (rounds + 1) as usize }), ActionView::Create { size: f.size })
                } else {
                    (keep(JobStage::Finished), ActionView::GiveUp)
                }
            },
            _ => (v, ActionView::Skip),
        },
        JobStage::Finished => (v, ActionView::Skip),
    }
}

/// The run of one file.
pub struct SophonFileJob {
    file: SophonFile,
    is_fast: bool,
    stage: JobStage,
    already_verified: bool,
    downloaded: bool,
    failures: Vec<FailedChunk>,
}

/// Failures as plain values.
pub open spec fn failure_views(f: Seq<FailedChunk>) -> Seq<(Seq<char>, Seq<char>, Seq<char>)> {
    f.map_values(|c: FailedChunk| (c.file_name@, c.chunk_name@, c.error@))
}

impl SophonFileJob {
    /// The file of the run.
    pub closed spec fn file_view(&self) -> SophonFile {
        self.file
    }

    /// Whether the staged copy is checked by length only.
    pub closed spec fn fast_view(&self) -> bool {
        self.is_fast
    }

    /// The run as plain values.
    pub closed spec fn state(&self) -> JobView {
        JobView {
            stage: self.stage,
            already_verified: self.already_verified,
            downloaded: self.downloaded,
            failures: failure_views(self.failures@),
        }
    }

    /// Stages never name a chunk the file lacks, a failed download count at
    /// the limit, or more re-assemblies than allowed.
    pub open spec fn wf(&self) -> bool {
        match self.state().stage {
            JobStage::Creating { rounds } => rounds <= VALIDATION_RETRIES,
            JobStage::Fetching { chunk, downloads, rounds } => chunk < self.file_view().chunks@.len()
                && downloads < CHUNK_DOWNLOADS && rounds <= VALIDATION_RETRIES,
            JobStage::Writing { chunk, rounds } => chunk < self.file_view().chunks@.len()
                && rounds <= VALIDATION_RETRIES,
            JobStage::Checking { rounds } => rounds <= VALIDATION_RETRIES,
            _ => true,
        }
    }

    /// The run of `file` before anything is known; the caller first reads
    /// the staged copy (its length, and with `!is_fast` its contents).
    pub fn new(file: SophonFile, is_fast: bool) -> (r: SophonFileJob)
        ensures
            r.wf(),
            r.file_view() == file,
            r.fast_view() == is_fast,
            r.state() == (JobView { stage: JobStage::Start, already_verified: false, downloaded: false, failures: Seq::empty() }),
    {
        let r = SophonFileJob { file, is_fast, stage: JobStage::Start, already_verified: false, downloaded: false, failures: Vec::new() };
        assert(failure_views(r.failures@) =~= Seq::empty());
        r
    }

    /// The chunks that could not be had so far.
    pub fn failures(&self) -> (r: &Vec<FailedChunk>)
        ensures
            failure_views(r@) == self.state().failures,
    {
        &self.failures
    }

    /// The file of the run.
    pub fn file(&self) -> (r: &SophonFile)
        ensures
            *r == self.file_view(),
    {
        &self.file
    }

    fn next_after(&mut self, next: usize, rounds: usize) -> (r: JobAction)
        requires
            old(self).wf(),
            next <= old(self).file_view().chunks@.len(),
            rounds <= VALIDATION_RETRIES,
        ensures
            final(self).file_view() == old(self).file_view(),
            final(self).fast_view() == old(self).fast_view(),
            final(self).wf(),
            ({
                let (s, a) = after_chunk(old(self).file_view(), next as int, rounds);
                final(self).state() == (JobView { stage: s, ..old(self).state() }) && r@ == a
            }),
    {
        if next < self.file.chunks.len() {
            self.stage = JobStage::Fetching { chunk: next, downloads: 0, rounds };
            JobAction::Fetch { chunk: next }
        } else {
            self.stage = JobStage::Checking { rounds };
            JobAction::Read
        }
    }

    fn record_failure(&mut self, chunk: usize, message: String)
        requires
            chunk < old(self).file_view().chunks@.len(),
        ensures
            final(self).file_view() == old(self).file_view(),
            final(self).fast_view() == old(self).fast_view(),
            final(self).state() == (JobView {
                failures: old(self).state().failures.push(failure(old(self).file_view(), chunk as int, message@)),
                ..old(self).state()
            }),
    {
        let ghost before = self.failures@;
        let f = FailedChunk {
            file_name: self.file.name.clone(),
            chunk_name: self.file.chunks[chunk].chunk_name.clone(),
            error: message,
        };
        self.failures.push(f);
        assert(failure_views(self.failures@) =~= failure_views(before).push(failure(self.file, chunk as int, f.error@)));
    }

    /// Takes the report of the last action and returns the next action.
    pub fn step(&mut self, event: JobEvent) -> (r: JobAction)
        requires
            old(self).wf(),
            accepts(old(self).state().stage, event@),
        ensures
            final(self).wf(),
            final(self).file_view() == old(self).file_view(),
            final(self).fast_view() == old(self).fast_view(),
            (final(self).state(), r@) == job_next(old(self).file_view(), old(self).fast_view(), old(self).state(), event@),
    {
        let ghost v = self.state();
        match self.stage {
            JobStage::Start => match event {
                JobEvent::Staged { already_verified, on_disk_len, contents } => {
                    self.already_verified = already_verified;
                    if self.file.file_type == crate::sophon::DIRECTORY_TYPE {
                        self.stage = JobStage::Finished;
                        JobAction::Skip
                    } else {
                        let staged = match &contents {
                            Some(c) => self.file.staged_valid(self.is_fast, on_disk_len, Some(c.as_slice())),
                            None => self.file.staged_valid(self.is_fast, on_disk_len, None),
                        };
                        if self.file.needs_download(already_verified, staged) {
                            self.stage = JobStage::Creating { rounds: 0 };
                            self.downloaded = true;
                            JobAction::Create { size: self.file.size }
                        } else {
                            self.stage = JobStage::Checking { rounds: 0 };
                            self.downloaded = false;
                            JobAction::Read
                        }
                    }
                },
                _ => JobAction::Skip,
            },
            JobStage::Creating { rounds } => self.next_after(0, rounds),
            JobStage::Fetching { chunk, downloads, rounds } => match event {
                JobEvent::ConnectFailed(m) => {
                    let n = self.file.chunks.len();
                    assert(chunk < n);
                    self.record_failure(chunk, m);
                    self.next_after(chunk + 1, rounds)
                },
                JobEvent::DownloadFailed(m) => {
                    if downloads + 1 < CHUNK_DOWNLOADS {
                        self.stage = JobStage::Fetching { chunk, downloads: downloads + 1, rounds };
                        JobAction::Fetch { chunk }
                    } else {
                        let n = self.file.chunks.len();
                        assert(chunk < n);
                        self.record_failure(chunk, m);
                        self.next_after(chunk + 1, rounds)
                    }
                },
                JobEvent::Downloaded(b) => {
                    let n = self.file.chunks.len();
                    assert(chunk < n);
                    let payload = match &b {
                        Some(bytes) => self.file.chunks[chunk].contents(Some(bytes.as_slice())),
                        None => self.file.chunks[chunk].contents(None),
                    };
                    match payload {
                        Some(data) => {
                            self.stage = JobStage::Writing { chunk, rounds };
                            JobAction::Write { offset: self.file.chunks[chunk].chunk_on_file_offset, data }
                        },
                        None => self.next_after(chunk + 1, rounds),
                    }
                },
                _ => JobAction::Skip,
            },
            JobStage::Writing { chunk, rounds } => {
                let n = self.file.chunks.len();
                assert(chunk < n);
                self.next_after(chunk + 1, rounds)
            },
            JobStage::Checking { rounds } => match event {
                JobEvent::Read(c) => {
                    let contents = match &c {
                        Some(bytes) => Some(bytes.as_slice()),
                        None => None,
                    };
                    let valid = if rounds == 0 {
                        self.file.first_check(self.already_verified, contents)
                    } else {
                        self.file.staged_valid(false, None, contents)
                    };
                    let compressed = match self.file.compressed_size() {
                        Some(s) => s,
                        None => 0,
                    };
                    match validation_step(rounds, valid, self.already_verified, self.downloaded, compressed) {
                        ValidationStep::Accept { mark_verified, credit_download } => {
                            self.stage = JobStage::Finished;
                            JobAction::Accept { mark_verified, credit_download }
                        },
                        ValidationStep::Redownload => {
                            self.stage = JobStage::Creating { rounds: rounds + 1 };
                            JobAction::Create { size: self.file.size }
                        },
                        ValidationStep::GiveUp => {
                            self.stage = JobStage::Finished;
                            JobAction::GiveUp
                        },
                    }
                },
                _ => JobAction::Skip,
            },
            JobStage::Finished => JobAction::Skip,
        }
    }
}

/// A file is accepted only on a check of its contents that passes its MD5
/// checksum, or, on the first check, when this session had verified it.
pub proof fn law_accept_only_checked(f: SophonFile, is_fast: bool, v: JobView, e: EventView)
    requires
        accepts(v.stage, e),
    ensures
        job_next(f, is_fast, v, e).1 is Accept ==> (v.stage matches JobStage::Checking { rounds }
            && e matches EventView::Read(c) && (file_ok(f, c) || (rounds == 0 && v.already_verified))),
{
}

/// Every write puts the zstd decompression of downloaded bytes that passed
/// the chunk's MD5 checksum at that chunk's offset in the file.
pub proof fn law_writes_are_checked_chunks(f: SophonFile, is_fast: bool, v: JobView, e: EventView)
    requires
        accepts(v.stage, e),
    ensures
        job_next(f, is_fast, v, e).1 matches ActionView::Write { offset, data } ==> (
            v.stage matches JobStage::Fetching { chunk, .. }
            && e matches EventView::Downloaded(Some(b))
            && f.chunks@[chunk as int].download_valid(Some(b))
            && zstd_decoded(b) == Some(data)
            && offset == f.chunks@[chunk as int].chunk_on_file_offset),
{
}

} // verus!
