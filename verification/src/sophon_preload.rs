//! The run that preloads the patch archives one file of a Sophon patch
//! manifest needs to update from a version: each archive is claimed for the
//! session first (archives shared by several files are fetched once), an
//! archive already on disk that passes its MD5 check only counts as
//! downloaded, any other is downloaded with retries and checked, a bad
//! download is deleted, and an archive that could not be had is recorded.
//! The caller performs each action and reports what came of it; it stops
//! calling when the run is cancelled.

use vstd::prelude::*;
use crate::sophon::{chunks_for, FailedChunk, PatchChunk, PatchFile};
use crate::sophon_job::{failure_views, CHUNK_DOWNLOADS};
use crate::sophon_patch::passes;

verus! {

/// Where the preload of one file stands.
#[derive(Debug, Clone, Copy, PartialEq, Eq, Structural)]
pub enum PreloadStage {
    /// Nothing is known yet.
    Start,
    /// Archive `patch` is being claimed for the session; `verified` when the
    /// session had verified the file, whose archives are then only counted.
    Claiming { patch: usize, verified: bool },
    /// The size of archive `patch` is being counted as downloaded.
    Crediting { patch: usize, verified: bool },
    /// Archive `patch` as it is on disk is being read for its check.
    Checking { patch: usize },
    /// Archive `patch` is being downloaded; `attempts` attempts failed.
    Fetching { patch: usize, attempts: usize },
    /// Archive `patch` failed its check after attempt `attempts` and is
    /// being deleted.
    Deleting { patch: usize, attempts: usize },
    /// Nothing more is done.
    Finished,
}

/// What the caller reports.
#[derive(Debug, Clone)]
pub enum PreloadEvent {
    /// Whether this session already verified the file.
    Started { already_verified: bool },
    /// Whether the claim was new: no other file of the session had claimed
    /// the archive's name before.
    Claimed(bool),
    /// The bytes were counted.
    Credited,
    /// The archive on disk as read (`None` when missing or unreadable).
    ArchiveRead(Option<Vec<u8>>),
    /// The request for the archive could not be set up, with this message.
    ConnectFailed(String),
    /// The archive's download failed, with this message.
    DownloadFailed(String),
    /// The archive was downloaded; its bytes as read back (`None` if unreadable).
    Downloaded(Option<Vec<u8>>),
    /// The archive was deleted.
    Deleted,
}

/// What the caller does next.
#[derive(Debug, Clone)]
pub enum PreloadAction {
    /// Add the name of archive `patch` to the session's claimed names and
    /// report whether it was not there yet.
    Claim { patch: usize },
    /// Count `bytes` as downloaded.
    Credit { bytes: u64 },
    /// Read archive `patch` from disk.
    ReadArchive { patch: usize },
    /// Download archive `patch`.
    Fetch { patch: usize },
    /// Delete archive `patch` from disk.
    Delete { patch: usize },
    /// The file is done: record it as verified in this session when
    /// `mark_verified`.
    Finish { mark_verified: bool },
}

/// A report as plain values.
pub enum PreloadEventView {
    Started { already_verified: bool },
    Claimed(bool),
    Credited,
    ArchiveRead(Option<Seq<u8>>),
    ConnectFailed(Seq<char>),
    DownloadFailed(Seq<char>),
    Downloaded(Option<Seq<u8>>),
    Deleted,
}

/// An action as plain values.
pub enum PreloadActionView {
    Claim { patch: usize },
    Credit { bytes: u64 },
    ReadArchive { patch: usize },
    Fetch { patch: usize },
    Delete { patch: usize },
    Finish { mark_verified: bool },
}

/// The preload as plain values: its stage and the archives that could not
/// be had, as (file, archive, message).
pub struct PreloadView {
    pub stage: PreloadStage,
    pub failures: Seq<(Seq<char>, Seq<char>, Seq<char>)>,
}

pub open spec fn read_view(o: Option<Vec<u8>>) -> Option<Seq<u8>> {
    match o {
        Some(v) => Some(v@),
        None => None,
    }
}

impl View for PreloadEvent {
    type V = PreloadEventView;

    open spec fn view(&self) -> PreloadEventView {
        match self {
            PreloadEvent::Started { already_verified } => PreloadEventView::Started { already_verified: *already_verified },
            PreloadEvent::Claimed(fresh) => PreloadEventView::Claimed(*fresh),
            PreloadEvent::Credited => PreloadEventView::Credited,
            PreloadEvent::ArchiveRead(b) => PreloadEventView::ArchiveRead(read_view(*b)),
            PreloadEvent::ConnectFailed(m) => PreloadEventView::ConnectFailed(m@),
            PreloadEvent::DownloadFailed(m) => PreloadEventView::DownloadFailed(m@),
            PreloadEvent::Downloaded(b) => PreloadEventView::Downloaded(read_view(*b)),
            PreloadEvent::Deleted => PreloadEventView::Deleted,
        }
    }
}

impl View for PreloadAction {
    type V = PreloadActionView;

    open spec fn view(&self) -> PreloadActionView {
        match self {
            PreloadAction::Claim { patch } => PreloadActionView::Claim { patch: *patch },
            PreloadAction::Credit { bytes } => PreloadActionView::Credit { bytes: *bytes },
            PreloadAction::ReadArchive { patch } => PreloadActionView::ReadArchive { patch: *patch },
            PreloadAction::Fetch { patch } => PreloadActionView::Fetch { patch: *patch },
            PreloadAction::Delete { patch } => PreloadActionView::Delete { patch: *patch },
            PreloadAction::Finish { mark_verified } => PreloadActionView::Finish { mark_verified: *mark_verified },
        }
    }
}

/// The message kept for an archive whose downloads all failed their check.
pub open spec fn mismatch_text() -> Seq<char> {
    "Checksum mismatch"@
}

/// The failure recorded for archive `k` of file `f`.
pub open spec fn preload_failure(f: PatchFile, patches: Seq<PatchChunk>, k: int, m: Seq<char>) -> (Seq<char>, Seq<char>, Seq<char>) {
    (f.name@, patches[k].patch_name@, m)
}

/// After archive `k - 1`: the claim of archive `k`, or the end, where the
/// file is recorded as verified when it was not already and every archive
/// could be had.
pub open spec fn claim_at(patches: Seq<PatchChunk>, k: int, verified: bool, failures: Seq<(Seq<char>, Seq<char>, Seq<char>)>) -> (PreloadStage, PreloadActionView) {
    if 0 <= k < patches.len() {
        (PreloadStage::Claiming { patch: k as usize, verified }, PreloadActionView::Claim { patch: k as usize })
    } else {
        (PreloadStage::Finished, PreloadActionView::Finish { mark_verified: !verified && failures.len() == 0 })
    }
}

/// Whether the preload in stage `s` takes report `e`.
pub open spec fn preload_accepts(s: PreloadStage, e: PreloadEventView) -> bool {
    match s {
        PreloadStage::Start => e is Started,
        PreloadStage::Claiming { .. } => e is Claimed,
        PreloadStage::Crediting { .. } => e is Credited,
        PreloadStage::Checking { .. } => e is ArchiveRead,
        PreloadStage::Fetching { .. } => e is ConnectFailed || e is DownloadFailed || e is Downloaded,
        PreloadStage::Deleting { .. } => e is Deleted,
        PreloadStage::Finished => false,
    }
}

/// The preload of `f` through `patches` (its patches from the version)
/// after report `e` in state `v`, and the action it asks for.
pub open spec fn preload_next(f: PatchFile, patches: Seq<PatchChunk>, v: PreloadView, e: PreloadEventView) -> (PreloadView, PreloadActionView) {
    let at = |stage: PreloadStage| PreloadView { stage, ..v };
    let fail = |k: usize, m: Seq<char>| {
        let failures = v.failures.push(preload_failure(f, patches, k as int, m));
        let (s, a) = claim_at(patches, k + 1, false, failures);
        (PreloadView { stage: s, failures }, a)
    };
    let next = |k: usize, verified: bool| {
        let (s, a) = claim_at(patches, k + 1, verified, v.failures);
        (at(s), a)
    };
    match v.stage {
        PreloadStage::Start => match e {
            PreloadEventView::Started { already_verified } => if patches.len() == 0 {
                (at(PreloadStage::Finished), PreloadActionView::Finish { mark_verified: false })
            } else {
                (at(PreloadStage::Claiming { patch: 0, verified: already_verified }), PreloadActionView::Claim { patch: 0 })
            },
            _ => (v, PreloadActionView::Finish { mark_verified: false }),
        },
        PreloadStage::Claiming { patch, verified } => match e {
            PreloadEventView::Claimed(fresh) => if !fresh {
                next(patch, verified)
            } else if verified {
                (at(PreloadStage::Crediting { patch, verified }), PreloadActionView::Credit { bytes: patches[patch as int].patch_size })
            } else {
                (at(PreloadStage::Checking { patch }), PreloadActionView::ReadArchive { patch })
            },
            _ => (v, PreloadActionView::Finish { mark_verified: false }),
        },
        PreloadStage::Crediting { patch, verified } => next(patch, verified),
        PreloadStage::Checking { patch } => match e {
            PreloadEventView::ArchiveRead(a) => if passes(a, patches[patch as int].patch_md5@) {
                (at(PreloadStage::Crediting { patch, verified: false }), PreloadActionView::Credit { bytes: patches[patch as int].patch_size })
            } else {
                (at(PreloadStage::Fetching { patch, attempts: 0 }), PreloadActionView::Fetch { patch })
            },
            _ => (v, PreloadActionView::Finish { mark_verified: false }),
        },
        PreloadStage::Fetching { patch, attempts } => match e {
            PreloadEventView::ConnectFailed(m) => if attempts + 1 < CHUNK_DOWNLOADS {
                (at(PreloadStage::Fetching { patch, attempts: (attempts + 1) as usize }), PreloadActionView::Fetch { patch })
            } else {
                fail(patch, m)
            },
            PreloadEventView::DownloadFailed(m) => if attempts + 1 < CHUNK_DOWNLOADS {
                (at(PreloadStage::Fetching { patch, attempts: (attempts + 1) as usize }), PreloadActionView::Fetch { patch })
            } else {
                fail(patch, m)
            },
            PreloadEventView::Downloaded(b) => if passes(b, patches[patch as int].patch_md5@) {
                next(patch, false)
            } else {
                (at(PreloadStage::Deleting { patch, attempts: (attempts + 1) as usize }), PreloadActionView::Delete { patch })
            },
            _ => (v, PreloadActionView::Finish { mark_verified: false }),
        },
        PreloadStage::Deleting { patch, attempts } => if attempts < CHUNK_DOWNLOADS {
            (at(PreloadStage::Fetching { patch, attempts }), PreloadActionView::Fetch { patch })
        } else {
            fail(patch, mismatch_text())
        },
        PreloadStage::Finished => (v, PreloadActionView::Finish { mark_verified: false }),
    }
}

/// The preload of one file.
pub struct SophonPreloadJob {
    file: PatchFile,
    patches: Vec<PatchChunk>,
    stage: PreloadStage,
    failures: Vec<FailedChunk>,
}

impl SophonPreloadJob {
    /// The file whose archives are preloaded.
    pub closed spec fn file_view(&self) -> PatchFile {
        self.file
    }

    /// Its patches from the version being updated from.
    pub closed spec fn patches_view(&self) -> Seq<PatchChunk> {
        self.patches@
    }

    /// The preload as plain values.
    pub closed spec fn state(&self) -> PreloadView {
        PreloadView { stage: self.stage, failures: failure_views(self.failures@) }
    }

    /// Stages name only archives the file has, and never more attempts than
    /// allowed.
    pub open spec fn wf(&self) -> bool {
        let n = self.patches_view().len();
        match self.state().stage {
            PreloadStage::Claiming { patch, .. } => patch < n,
            PreloadStage::Crediting { patch, .. } => patch < n,
            PreloadStage::Checking { patch } => patch < n,
            PreloadStage::Fetching { patch, attempts } => patch < n && attempts < CHUNK_DOWNLOADS,
            PreloadStage::Deleting { patch, attempts } => patch < n && 1 <= attempts <= CHUNK_DOWNLOADS,
            _ => true,
        }
    }

    /// The preload of the archives `file` needs to update from `version`.
    pub fn new(file: PatchFile, version: &str) -> (r: SophonPreloadJob)
        ensures
            r.wf(),
            r.file_view() == file,
            r.patches_view() == chunks_for(file.chunks@, version@),
            r.state() == (PreloadView { stage: PreloadStage::Start, failures: Seq::empty() }),
    {
        let patches = file.chunks_for(version);
        let r = SophonPreloadJob { file, patches, stage: PreloadStage::Start, failures: Vec::new() };
        assert(failure_views(r.failures@) =~= Seq::empty());
        r
    }

    /// Patch `index` of the file.
    pub fn patch(&self, index: usize) -> (r: &PatchChunk)
        requires
            index < self.patches_view().len(),
        ensures
            *r == self.patches_view()[index as int],
    {
        &self.patches[index]
    }

    /// The archives that could not be had so far.
    pub fn failures(&self) -> (r: &Vec<FailedChunk>)
        ensures
            failure_views(r@) == self.state().failures,
    {
        &self.failures
    }

    fn claim_next(&mut self, k: usize, verified: bool) -> (r: PreloadAction)
        requires
            k <= old(self).patches_view().len(),
        ensures
            final(self).file_view() == old(self).file_view(),
            final(self).patches_view() == old(self).patches_view(),
            final(self).wf(),
            ({
                let (s, a) = claim_at(old(self).patches_view(), k as int, verified, old(self).state().failures);
                final(self).state() == (PreloadView { stage: s, ..old(self).state() }) && r@ == a
            }),
    {
        if k < self.patches.len() {
            self.stage = PreloadStage::Claiming { patch: k, verified };
            PreloadAction::Claim { patch: k }
        } else {
            self.stage = PreloadStage::Finished;
            PreloadAction::Finish { mark_verified: !verified && self.failures.len() == 0 }
        }
    }

    fn record_failure(&mut self, patch: usize, message: String)
        requires
            patch < old(self).patches_view().len(),
        ensures
            final(self).file_view() == old(self).file_view(),
            final(self).patches_view() == old(self).patches_view(),
            final(self).stage == old(self).stage,
            final(self).state().failures == old(self).state().failures.push(
                preload_failure(old(self).file_view(), old(self).patches_view(), patch as int, message@)),
    {
        let ghost before = self.failures@;
        let f = FailedChunk {
            file_name: self.file.name.clone(),
            chunk_name: self.patches[patch].patch_name.clone(),
            error: message,
        };
        self.failures.push(f);
        assert(failure_views(self.failures@) =~= failure_views(before).push(
            preload_failure(self.file, self.patches@, patch as int, f.error@)));
    }

    /// Takes the report of the last action and returns the next action.
    pub fn step(&mut self, event: PreloadEvent) -> (r: PreloadAction)
        requires
            old(self).wf(),
            preload_accepts(old(self).state().stage, event@),
        ensures
            final(self).wf(),
            final(self).file_view() == old(self).file_view(),
            final(self).patches_view() == old(self).patches_view(),
            (final(self).state(), r@) == preload_next(old(self).file_view(), old(self).patches_view(), old(self).state(), event@),
    {
        let n = self.patches.len();
        match self.stage {
            PreloadStage::Start => match event {
                PreloadEvent::Started { already_verified } => {
                    if n == 0 {
                        self.stage = PreloadStage::Finished;
                        PreloadAction::Finish { mark_verified: false }
                    } else {
                        self.stage = PreloadStage::Claiming { patch: 0, verified: already_verified };
                        PreloadAction::Claim { patch: 0 }
                    }
                },
                _ => PreloadAction::Finish { mark_verified: false },
            },
            PreloadStage::Claiming { patch, verified } => match event {
                PreloadEvent::Claimed(fresh) => {
                    if !fresh {
                        self.claim_next(patch + 1, verified)
                    } else if verified {
                        self.stage = PreloadStage::Crediting { patch, verified };
                        PreloadAction::Credit { bytes: self.patches[patch].patch_size }
                    } else {
                        self.stage = PreloadStage::Checking { patch };
                        PreloadAction::ReadArchive { patch }
                    }
                },
                _ => PreloadAction::Finish { mark_verified: false },
            },
            PreloadStage::Crediting { patch, verified } => self.claim_next(patch + 1, verified),
            PreloadStage::Checking { patch } => match event {
                PreloadEvent::ArchiveRead(a) => {
                    let contents = match &a {
                        Some(b) => Some(b.as_slice()),
                        None => None,
                    };
                    if crate::digest::validate_checksum(contents, self.patches[patch].patch_md5.as_str()) {
                        self.stage = PreloadStage::Crediting { patch, verified: false };
                        PreloadAction::Credit { bytes: self.patches[patch].patch_size }
                    } else {
                        self.stage = PreloadStage::Fetching { patch, attempts: 0 };
                        PreloadAction::Fetch { patch }
                    }
                },
                _ => PreloadAction::Finish { mark_verified: false },
            },
            PreloadStage::Fetching { patch, attempts } => match event {
                PreloadEvent::ConnectFailed(m) => {
                    if attempts + 1 < CHUNK_DOWNLOADS {
                        self.stage = PreloadStage::Fetching { patch, attempts: attempts + 1 };
                        PreloadAction::Fetch { patch }
                    } else {
                        self.record_failure(patch, m);
                        self.claim_next(patch + 1, false)
                    }
                },
                PreloadEvent::DownloadFailed(m) => {
                    if attempts + 1 < CHUNK_DOWNLOADS {
                        self.stage = PreloadStage::Fetching { patch, attempts: attempts + 1 };
                        PreloadAction::Fetch { patch }
                    } else {
                        self.record_failure(patch, m);
                        self.claim_next(patch + 1, false)
                    }
                },
                PreloadEvent::Downloaded(b) => {
                    let contents = match &b {
                        Some(bytes) => Some(bytes.as_slice()),
                        None => None,
                    };
                    if crate::digest::validate_checksum(contents, self.patches[patch].patch_md5.as_str()) {
                        self.claim_next(patch + 1, false)
                    } else {
                        self.stage = PreloadStage::Deleting { patch, attempts: attempts + 1 };
                        PreloadAction::Delete { patch }
                    }
                },
                _ => PreloadAction::Finish { mark_verified: false },
            },
            PreloadStage::Deleting { patch, attempts } => {
                if attempts < CHUNK_DOWNLOADS {
                    self.stage = PreloadStage::Fetching { patch, attempts };
                    PreloadAction::Fetch { patch }
                } else {
                    self.record_failure(patch, String::from_str("Checksum mismatch"));
                    self.claim_next(patch + 1, false)
                }
            },
            PreloadStage::Finished => PreloadAction::Finish { mark_verified: false },
        }
    }
}

/// A file is recorded as verified by its preload only when every archive it
/// needs could be had.
pub proof fn law_preload_marks_only_complete(f: PatchFile, patches: Seq<PatchChunk>, v: PreloadView, e: PreloadEventView)
    requires
        preload_accepts(v.stage, e),
    ensures
        ({
            let (w, a) = preload_next(f, patches, v, e);
            a matches PreloadActionView::Finish { mark_verified } && mark_verified ==> w.failures.len() == 0
        }),
{
}

/// An archive is checked on disk or downloaded only after this file's claim
/// of it was new, so an archive that several files share is fetched once;
/// it is downloaded only when the copy on disk failed its check, or again
/// after a failed attempt.
pub proof fn law_fetch_only_fresh_and_unchecked(f: PatchFile, patches: Seq<PatchChunk>, v: PreloadView, e: PreloadEventView)
    requires
        preload_accepts(v.stage, e),
    ensures
        preload_next(f, patches, v, e).1 matches PreloadActionView::ReadArchive { patch } ==> (
            v.stage matches PreloadStage::Claiming { patch: p, verified } && p == patch && !verified
            && (e matches PreloadEventView::Claimed(fresh) && fresh)),
        preload_next(f, patches, v, e).1 matches PreloadActionView::Fetch { patch } ==> (
            (v.stage matches PreloadStage::Checking { patch: p } && p == patch
                && (e matches PreloadEventView::ArchiveRead(a) && !passes(a, patches[patch as int].patch_md5@)))
            || (v.stage matches PreloadStage::Fetching { patch: p, .. } && p == patch)
            || (v.stage matches PreloadStage::Deleting { patch: p, .. } && p == patch)),
{
}

/// Bytes are counted as downloaded only for a new claim of an archive,
/// whole: the archive's size, for a file the session had verified or an
/// archive on disk that passes its MD5 check.
pub proof fn law_credit_only_new_claims(f: PatchFile, patches: Seq<PatchChunk>, v: PreloadView, e: PreloadEventView)
    requires
        preload_accepts(v.stage, e),
    ensures
        preload_next(f, patches, v, e).1 matches PreloadActionView::Credit { bytes } ==> (
            (v.stage matches PreloadStage::Claiming { patch, verified } && verified
                && (e matches PreloadEventView::Claimed(fresh) && fresh) && bytes == patches[patch as int].patch_size)
            || (v.stage matches PreloadStage::Checking { patch }
                && (e matches PreloadEventView::ArchiveRead(a) && passes(a, patches[patch as int].patch_md5@))
                && bytes == patches[patch as int].patch_size)),
{
}

} // verus!
