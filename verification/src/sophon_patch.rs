//! The run that updates one file of a Sophon patch manifest from a version,
//! for a patch and for the install of a preloaded patch: the check of the
//! updated copy, the download (or, when preloaded, the read) of each patch
//! archive, its MD5 check, the cut of the patch out of the archive, the way
//! it is applied, and the check of the result. The caller performs each
//! action and reports what came of it.

use vstd::prelude::*;
use crate::digest::chksum_md5_hex;
use crate::sophon::{chunks_for, is_hdiff_data, taken_bytes, PatchAction, PatchChunk, PatchFile};
use crate::text::ascii_lower;

verus! {

/// Where the update of one file stands.
#[derive(Debug, Clone, Copy, PartialEq, Eq, Structural)]
pub enum PatchStage {
    /// Nothing is known yet.
    Start,
    /// The updated copy is being read for the first check.
    Checking,
    /// Patch archive `patch` is being downloaded.
    Fetching { patch: usize },
    /// Patch archive `patch` is being read.
    Reading { patch: usize },
    /// Patch `patch` is being applied.
    Applying { patch: usize },
    /// The result is being read for the final check.
    Validating,
    /// Nothing more is done.
    Finished,
}

/// What the caller reports.
#[derive(Debug, Clone)]
pub enum PatchEvent {
    /// Whether this session already verified the file.
    Started { already_verified: bool },
    /// The updated copy as read (`None` when missing or unreadable).
    OutputRead(Option<Vec<u8>>),
    /// Whether the download of the patch archive succeeded.
    Fetched(bool),
    /// The patch archive as read (`None` when missing or unreadable).
    ArchiveRead(Option<Vec<u8>>),
    /// The patch was applied (whatever its outcome: the final check decides).
    Applied,
}

/// What the caller does next.
#[derive(Debug, Clone)]
pub enum PatchJobAction {
    /// Count the file's size as installed and `credit_download` bytes as
    /// downloaded; record it as verified in this session when
    /// `mark_verified`.
    Credit { mark_verified: bool, credit_download: u64 },
    /// Read the updated copy of the file.
    ReadOutput,
    /// Download patch archive `patch`.
    Fetch { patch: usize },
    /// Read patch archive `patch`.
    ReadArchive { patch: usize },
    /// Apply patch `patch`, whose bytes are `data`, in the way `how` says.
    Apply { patch: usize, how: PatchAction, data: Vec<u8> },
    /// Nothing is counted for the file.
    Done,
}

/// A report as plain values.
pub enum PatchEventView {
    Started { already_verified: bool },
    OutputRead(Option<Seq<u8>>),
    Fetched(bool),
    ArchiveRead(Option<Seq<u8>>),
    Applied,
}

/// An action as plain values.
pub enum PatchActionView {
    Credit { mark_verified: bool, credit_download: u64 },
    ReadOutput,
    Fetch { patch: usize },
    ReadArchive { patch: usize },
    Apply { patch: usize, how: PatchAction, data: Seq<u8> },
    Done,
}

pub open spec fn bytes_view(o: Option<Vec<u8>>) -> Option<Seq<u8>> {
    match o {
        Some(v) => Some(v@),
        None => None,
    }
}

impl View for PatchEvent {
    type V = PatchEventView;

    open spec fn view(&self) -> PatchEventView {
        match self {
            PatchEvent::Started { already_verified } => PatchEventView::Started { already_verified: *already_verified },
            PatchEvent::OutputRead(b) => PatchEventView::OutputRead(bytes_view(*b)),
            PatchEvent::Fetched(ok) => PatchEventView::Fetched(*ok),
            PatchEvent::ArchiveRead(b) => PatchEventView::ArchiveRead(bytes_view(*b)),
            PatchEvent::Applied => PatchEventView::Applied,
        }
    }
}

impl View for PatchJobAction {
    type V = PatchActionView;

    open spec fn view(&self) -> PatchActionView {
        match self {
            PatchJobAction::Credit { mark_verified, credit_download } => PatchActionView::Credit {
                mark_verified: *mark_verified,
                credit_download: *credit_download,
            },
            PatchJobAction::ReadOutput => PatchActionView::ReadOutput,
            PatchJobAction::Fetch { patch } => PatchActionView::Fetch { patch: *patch },
            PatchJobAction::ReadArchive { patch } => PatchActionView::ReadArchive { patch: *patch },
            PatchJobAction::Apply { patch, how, data } => PatchActionView::Apply { patch: *patch, how: *how, data: data@ },
            PatchJobAction::Done => PatchActionView::Done,
        }
    }
}

/// Whether contents pass a checksum given in hex of any case.
pub open spec fn passes(contents: Option<Seq<u8>>, md5: Seq<char>) -> bool {
    match contents {
        Some(c) => chksum_md5_hex(c) == ascii_lower(md5),
        None => false,
    }
}

/// The bytes of patch `c` in its archive: `patch_length` bytes from
/// `patch_offset`, when the archive holds them.
pub open spec fn patch_bytes(c: PatchChunk, archive: Seq<u8>) -> Option<Seq<u8>> {
    if c.patch_offset + c.patch_length <= archive.len() {
        Some(archive.subrange(c.patch_offset as int, c.patch_offset + c.patch_length))
    } else {
        None
    }
}

/// The bytes handed on for patch `c` out of its archive: for a patch of an
/// original file, what the archive holds from the patch's offset on, up to
/// the patch's length; otherwise exactly `patch_length` bytes from the
/// offset, or nothing when the archive is too short.
pub open spec fn patch_payload(c: PatchChunk, archive: Seq<u8>) -> Option<Seq<u8>> {
    if c.original_filename@.len() > 0 {
        Some(taken_bytes(c, archive))
    } else {
        patch_bytes(c, archive)
    }
}

/// The download credited for a file that needed no patching: its size,
/// unless the patch archives were preloaded.
pub open spec fn download_credit(f: PatchFile, preloaded: bool) -> u64 {
    if preloaded { 0 } else { f.size }
}

/// How patch `c` with bytes `data` is applied.
pub open spec fn patch_way(c: PatchChunk, data: Seq<u8>) -> PatchAction {
    if c.original_filename@.len() > 0 {
        PatchAction::PatchOriginal
    } else if is_hdiff_data(data) {
        PatchAction::PatchSelf
    } else {
        PatchAction::CopyData
    }
}

/// The step to patch `k` of `patches`: its download, or its read when
/// preloaded; the final check after the last one.
pub open spec fn patch_at(patches: Seq<PatchChunk>, k: int, preloaded: bool) -> (PatchStage, PatchActionView) {
    if 0 <= k < patches.len() {
        if preloaded {
            (PatchStage::Reading { patch: k as usize }, PatchActionView::ReadArchive { patch: k as usize })
        } else {
            (PatchStage::Fetching { patch: k as usize }, PatchActionView::Fetch { patch: k as usize })
        }
    } else {
        (PatchStage::Validating, PatchActionView::ReadOutput)
    }
}

/// Whether the update in stage `s` takes report `e`.
pub open spec fn patch_accepts(s: PatchStage, e: PatchEventView) -> bool {
    match s {
        PatchStage::Start => e is Started,
        PatchStage::Checking => e is OutputRead,
        PatchStage::Fetching { .. } => e is Fetched,
        PatchStage::Reading { .. } => e is ArchiveRead,
        PatchStage::Applying { .. } => e is Applied,
        PatchStage::Validating => e is OutputRead,
        PatchStage::Finished => false,
    }
}

/// The update of `f` through `patches` (its patches from the version) after
/// report `e` in stage `s`, and the action it asks for.
pub open spec fn patch_next(f: PatchFile, patches: Seq<PatchChunk>, preloaded: bool, s: PatchStage, e: PatchEventView) -> (PatchStage, PatchActionView) {
    match s {
        PatchStage::Start => match e {
            PatchEventView::Started { already_verified } => if already_verified {
                (PatchStage::Finished, PatchActionView::Credit {
                    mark_verified: false,
                    credit_download: download_credit(f, preloaded),
                })
            } else {
                (PatchStage::Checking, PatchActionView::ReadOutput)
            },
            _ => (s, PatchActionView::Done),
        },
        PatchStage::Checking => match e {
            PatchEventView::OutputRead(c) => if passes(c, f.md5@) {
                (PatchStage::Finished, PatchActionView::Credit {
                    mark_verified: true,
                    credit_download: download_credit(f, preloaded),
                })
            } else if patches.len() == 0 {
                (PatchStage::Finished, PatchActionView::Done)
            } else {
                patch_at(patches, 0, preloaded)
            },
            _ => (s, PatchActionView::Done),
        },
        PatchStage::Fetching { patch } => match e {
            PatchEventView::Fetched(ok) => if ok {
                (PatchStage::Reading { patch }, PatchActionView::ReadArchive { patch })
            } else {
                patch_at(patches, patch + 1, preloaded)
            },
            _ => (s, PatchActionView::Done),
        },
        PatchStage::Reading { patch } => match e {
            PatchEventView::ArchiveRead(a) => {
                let c = patches[patch as int];
                match a {
                    Some(bytes) => if passes(Some(bytes), c.patch_md5@) {
                        match patch_payload(c, bytes) {
                            Some(data) => (PatchStage::Applying { patch }, PatchActionView::Apply {
                                patch,
                                how: patch_way(c, data),
                                data,
                            }),
                            None => patch_at(patches, patch + 1, preloaded),
                        }
                    } else {
                        patch_at(patches, patch + 1, preloaded)
                    },
                    None => patch_at(patches, patch + 1, preloaded),
                }
            },
            _ => (s, PatchActionView::Done),
        },
        PatchStage::Applying { patch } => patch_at(patches, patch + 1, preloaded),
        PatchStage::Validating => match e {
            PatchEventView::OutputRead(c) => if passes(c, f.md5@) {
                (PatchStage::Finished, PatchActionView::Credit { mark_verified: true, credit_download: 0 })
            } else {
                (PatchStage::Finished, PatchActionView::Done)
            },
            _ => (s, PatchActionView::Done),
        },
        PatchStage::Finished => (s, PatchActionView::Done),
    }
}

/// The update of one file.
pub struct SophonPatchJob {
    file: PatchFile,
    patches: Vec<PatchChunk>,
    preloaded: bool,
    stage: PatchStage,
}

impl SophonPatchJob {
    /// The file being updated.
    pub closed spec fn file_view(&self) -> PatchFile {
        self.file
    }

    /// Its patches from the version being updated from.
    pub closed spec fn patches_view(&self) -> Seq<PatchChunk> {
        self.patches@
    }

    /// Whether the patch archives were downloaded beforehand.
    pub closed spec fn preloaded_view(&self) -> bool {
        self.preloaded
    }

    /// Where the update stands.
    pub closed spec fn stage_view(&self) -> PatchStage {
        self.stage
    }

    /// Stages name only patches the file has.
    pub open spec fn wf(&self) -> bool {
        match self.stage_view() {
            PatchStage::Fetching { patch } => patch < self.patches_view().len(),
            PatchStage::Reading { patch } => patch < self.patches_view().len(),
            PatchStage::Applying { patch } => patch < self.patches_view().len(),
            _ => true,
        }
    }

    /// The update of `file` from `version`; with `preloaded` the patch
    /// archives are read from disk instead of downloaded.
    pub fn new(file: PatchFile, version: &str, preloaded: bool) -> (r: SophonPatchJob)
        ensures
            r.wf(),
            r.file_view() == file,
            r.patches_view() == chunks_for(file.chunks@, version@),
            r.preloaded_view() == preloaded,
            r.stage_view() == PatchStage::Start,
    {
        let patches = file.chunks_for(version);
        SophonPatchJob { file, patches, preloaded, stage: PatchStage::Start }
    }

    /// Patch `index` of the update.
    pub fn patch(&self, index: usize) -> (r: &PatchChunk)
        requires
            index < self.patches_view().len(),
        ensures
            *r == self.patches_view()[index as int],
    {
        &self.patches[index]
    }

    /// The file being updated.
    pub fn file(&self) -> (r: &PatchFile)
        ensures
            *r == self.file_view(),
    {
        &self.file
    }

    fn download_credit(&self) -> (r: u64)
        ensures
            r == download_credit(self.file_view(), self.preloaded_view()),
    {
        if self.preloaded { 0 } else { self.file.size }
    }

    fn go_to(&mut self, k: usize) -> (r: PatchJobAction)
        requires
            k <= old(self).patches_view().len(),
        ensures
            final(self).file_view() == old(self).file_view(),
            final(self).patches_view() == old(self).patches_view(),
            final(self).preloaded_view() == old(self).preloaded_view(),
            final(self).wf(),
            (final(self).stage_view(), r@) == patch_at(old(self).patches_view(), k as int, old(self).preloaded_view()),
    {
        if k < self.patches.len() {
            if self.preloaded {
                self.stage = PatchStage::Reading { patch: k };
                PatchJobAction::ReadArchive { patch: k }
            } else {
                self.stage = PatchStage::Fetching { patch: k };
                PatchJobAction::Fetch { patch: k }
            }
        } else {
            self.stage = PatchStage::Validating;
            PatchJobAction::ReadOutput
        }
    }

    /// Takes the report of the last action and returns the next action.
    pub fn step(&mut self, event: PatchEvent) -> (r: PatchJobAction)
        requires
            old(self).wf(),
            patch_accepts(old(self).stage_view(), event@),
        ensures
            final(self).wf(),
            final(self).file_view() == old(self).file_view(),
            final(self).patches_view() == old(self).patches_view(),
            final(self).preloaded_view() == old(self).preloaded_view(),
            (final(self).stage_view(), r@) == patch_next(old(self).file_view(), old(self).patches_view(),
                old(self).preloaded_view(), old(self).stage_view(), event@),
    {
        match self.stage {
            PatchStage::Start => match event {
                PatchEvent::Started { already_verified } => {
                    if already_verified {
                        self.stage = PatchStage::Finished;
                        PatchJobAction::Credit { mark_verified: false, credit_download: self.download_credit() }
                    } else {
                        self.stage = PatchStage::Checking;
                        PatchJobAction::ReadOutput
                    }
                },
                _ => PatchJobAction::Done,
            },
            PatchStage::Checking => match event {
                PatchEvent::OutputRead(c) => {
                    let ok = match &c {
                        Some(b) => crate::digest::validate_checksum(Some(b.as_slice()), self.file.md5.as_str()),
                        None => false,
                    };
                    if ok {
                        self.stage = PatchStage::Finished;
                        PatchJobAction::Credit { mark_verified: true, credit_download: self.download_credit() }
                    } else if self.patches.len() == 0 {
                        self.stage = PatchStage::Finished;
                        PatchJobAction::Done
                    } else {
                        self.go_to(0)
                    }
                },
                _ => PatchJobAction::Done,
            },
            PatchStage::Fetching { patch } => match event {
                PatchEvent::Fetched(ok) => {
                    if ok {
                        self.stage = PatchStage::Reading { patch };
                        PatchJobAction::ReadArchive { patch }
                    } else {
                        let n = self.patches.len();
                        assert(patch < n);
                        self.go_to(patch + 1)
                    }
                },
                _ => PatchJobAction::Done,
            },
            PatchStage::Reading { patch } => match event {
                PatchEvent::ArchiveRead(a) => {
                    let n = self.patches.len();
                    assert(patch < n);
                    match &a {
                        Some(bytes) => {
                            let c = &self.patches[patch];
                            if crate::digest::validate_checksum(Some(bytes.as_slice()), c.patch_md5.as_str()) {
                                let payload = if c.original_filename.as_str().unicode_len() > 0 {
                                    Some(c.taken_data(bytes.as_slice()))
                                } else {
                                    c.patch_data(bytes.as_slice())
                                };
                                match payload {
                                    Some(d) => {
                                        let how = c.action(d);
                                        let data = vstd::slice::slice_to_vec(d);
                                        self.stage = PatchStage::Applying { patch };
                                        PatchJobAction::Apply { patch, how, data }
                                    },
                                    None => self.go_to(patch + 1),
                                }
                            } else {
                                self.go_to(patch + 1)
                            }
                        },
                        None => self.go_to(patch + 1),
                    }
                },
                _ => PatchJobAction::Done,
            },
            PatchStage::Applying { patch } => {
                let n = self.patches.len();
                assert(patch < n);
                self.go_to(patch + 1)
            },
            PatchStage::Validating => match event {
                PatchEvent::OutputRead(c) => {
                    let ok = match &c {
                        Some(b) => crate::digest::validate_checksum(Some(b.as_slice()), self.file.md5.as_str()),
                        None => false,
                    };
                    self.stage = PatchStage::Finished;
                    if ok {
                        PatchJobAction::Credit { mark_verified: true, credit_download: 0 }
                    } else {
                        PatchJobAction::Done
                    }
                },
                _ => PatchJobAction::Done,
            },
            PatchStage::Finished => PatchJobAction::Done,
        }
    }
}

/// A file is credited as updated only when this session had verified it or
/// a check of its contents passes its MD5 checksum; download is credited
/// only for a file that needed no patching, and never when the patch
/// archives were preloaded.
pub proof fn law_credit_only_checked(f: PatchFile, patches: Seq<PatchChunk>, preloaded: bool, s: PatchStage, e: PatchEventView)
    requires
        patch_accepts(s, e),
    ensures
        patch_next(f, patches, preloaded, s, e).1 is Credit ==> (
            (s is Start && (e matches PatchEventView::Started { already_verified } && already_verified))
            || (e matches PatchEventView::OutputRead(c) && passes(c, f.md5@))),
        patch_next(f, patches, preloaded, s, e).1 matches PatchActionView::Credit { credit_download, .. } ==> (
            credit_download == (if preloaded || s is Validating { 0 } else { f.size })),
{
}

/// A patch is applied only with bytes cut from an archive that passed the
/// patch's MD5 checksum, from the patch's offset and at most its length.
pub proof fn law_applied_patches_are_checked(f: PatchFile, patches: Seq<PatchChunk>, preloaded: bool, s: PatchStage, e: PatchEventView)
    requires
        patch_accepts(s, e),
        s matches PatchStage::Reading { patch } ==> patch < patches.len(),
    ensures
        patch_next(f, patches, preloaded, s, e).1 matches PatchActionView::Apply { patch, how, data } ==> (
            e matches PatchEventView::ArchiveRead(Some(a))
            && passes(Some(a), patches[patch as int].patch_md5@)
            && patch_payload(patches[patch as int], a) == Some(data)
            && how == patch_way(patches[patch as int], data)),
{
}

} // verus!
