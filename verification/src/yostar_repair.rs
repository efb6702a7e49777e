//! The run that repairs one file of a Yostar release: the check of the copy
//! on disk (by length, or by checksum), the removal of a bad copy, up to
//! three downloads with a check after each, and the record of a file that
//! could not be repaired. The caller performs each action and reports what
//! came of it; it stops calling when the run is cancelled.

use vstd::prelude::*;
use crate::digest::chksum_md5_hex;
use crate::kuro::{resource_step, KuroResource, ResourceStep, RESOURCE_DOWNLOADS};
use crate::sophon::FailedChunk;
use crate::text::ascii_lower;

verus! {

/// Where the repair of one file stands.
#[derive(Debug, Clone, Copy, PartialEq, Eq, Structural)]
pub enum RepairStage {
    /// The copy on disk has not been looked at.
    Start,
    /// The bad copy is being removed.
    Removing,
    /// The file is being downloaded; `attempts` attempts failed.
    Fetching { attempts: usize },
    /// Nothing more is done.
    Finished,
}

/// What the caller reports.
#[derive(Debug, Clone)]
pub enum RepairEvent {
    /// The copy on disk: whether this session already verified the file, its
    /// length (`None` when it is missing) and, unless the check is by length,
    /// its contents (`None` when missing or unreadable).
    Inspected { already_verified: bool, on_disk_len: Option<u64>, contents: Option<Vec<u8>> },
    /// The bad copy was removed.
    Removed,
    /// The request for the file could not be set up, with this message.
    ConnectFailed(String),
    /// The download failed, with this message.
    DownloadFailed(String),
    /// The file was downloaded; its length and (unless the check is by
    /// length) its contents as read back.
    Downloaded { on_disk_len: Option<u64>, contents: Option<Vec<u8>> },
}

/// What the caller does next.
#[derive(Debug, Clone)]
pub enum RepairAction {
    /// Remove the copy on disk.
    Remove,
    /// Download the file.
    Fetch,
    /// The file is good: count its size as installed and `credit_download`
    /// bytes as downloaded, and record it as verified in this session when
    /// `mark_verified`.
    Accept { mark_verified: bool, credit_download: u64 },
    /// The file could not be repaired; it is recorded as failed.
    GiveUp,
}

/// A report as plain values.
pub enum RepairEventView {
    Inspected { already_verified: bool, on_disk_len: Option<u64>, contents: Option<Seq<u8>> },
    Removed,
    ConnectFailed(Seq<char>),
    DownloadFailed(Seq<char>),
    Downloaded { on_disk_len: Option<u64>, contents: Option<Seq<u8>> },
}

/// An action as plain values.
pub enum RepairActionView {
    Remove,
    Fetch,
    Accept { mark_verified: bool, credit_download: u64 },
    GiveUp,
}

/// The repair as plain values: its stage, whether the session had verified
/// the file, and the failure recorded for it as (file, file, message).
pub struct RepairView {
    pub stage: RepairStage,
    pub already_verified: bool,
    pub failure: Option<(Seq<char>, Seq<char>, Seq<char>)>,
}

pub open spec fn contents_view(o: Option<Vec<u8>>) -> Option<Seq<u8>> {
    match o {
        Some(v) => Some(v@),
        None => None,
    }
}

impl View for RepairEvent {
    type V = RepairEventView;

    open spec fn view(&self) -> RepairEventView {
        match self {
            RepairEvent::Inspected { already_verified, on_disk_len, contents } => RepairEventView::Inspected {
                already_verified: *already_verified,
                on_disk_len: *on_disk_len,
                contents: contents_view(*contents),
            },
            RepairEvent::Removed => RepairEventView::Removed,
            RepairEvent::ConnectFailed(m) => RepairEventView::ConnectFailed(m@),
            RepairEvent::DownloadFailed(m) => RepairEventView::DownloadFailed(m@),
            RepairEvent::Downloaded { on_disk_len, contents } => RepairEventView::Downloaded {
                on_disk_len: *on_disk_len,
                contents: contents_view(*contents),
            },
        }
    }
}

impl View for RepairAction {
    type V = RepairActionView;

    open spec fn view(&self) -> RepairActionView {
        match self {
            RepairAction::Remove => RepairActionView::Remove,
            RepairAction::Fetch => RepairActionView::Fetch,
            RepairAction::Accept { mark_verified, credit_download } => RepairActionView::Accept {
                mark_verified: *mark_verified,
                credit_download: *credit_download,
            },
            RepairAction::GiveUp => RepairActionView::GiveUp,
        }
    }
}

/// Whether a copy passes: with `is_fast` its length must be the file's
/// size, else its contents must pass the file's checksum.
pub open spec fn copy_ok(r: KuroResource, is_fast: bool, len: Option<u64>, contents: Option<Seq<u8>>) -> bool {
    if is_fast {
        len == Some(r.size)
    } else {
        match contents {
            Some(c) => chksum_md5_hex(c) == ascii_lower(r.md5@),
            None => false,
        }
    }
}

/// The failure recorded for file `r`.
pub open spec fn repair_failure(r: KuroResource, m: Seq<char>) -> (Seq<char>, Seq<char>, Seq<char>) {
    (r.dest@, r.dest@, m)
}

/// Whether the repair in stage `s` takes report `e`.
pub open spec fn repair_accepts(s: RepairStage, e: RepairEventView) -> bool {
    match s {
        RepairStage::Start => e is Inspected,
        RepairStage::Removing => e is Removed,
        RepairStage::Fetching { .. } => e is ConnectFailed || e is DownloadFailed || e is Downloaded,
        RepairStage::Finished => false,
    }
}

/// The repair of file `r` after report `e` in state `v`, and the action it
/// asks for.
pub open spec fn yostar_repair_next(r: KuroResource, is_fast: bool, v: RepairView, e: RepairEventView) -> (RepairView, RepairActionView) {
    let at = |stage: RepairStage| RepairView { stage, ..v };
    let retry_or_fail = |attempts: usize, m: Seq<char>| if attempts + 1 < RESOURCE_DOWNLOADS {
        (at(RepairStage::Fetching { attempts: (attempts + 1) as usize }), RepairActionView::Fetch)
    } else {
        (RepairView { stage: RepairStage::Finished, failure: Some(repair_failure(r, m)), ..v }, RepairActionView::GiveUp)
    };
    match v.stage {
        RepairStage::Start => match e {
            RepairEventView::Inspected { already_verified, on_disk_len, contents } => {
                let w = RepairView { already_verified, ..v };
                if on_disk_len is Some && (already_verified || copy_ok(r, is_fast, on_disk_len, contents)) {
                    (RepairView { stage: RepairStage::Finished, ..w }, RepairActionView::Accept {
                        mark_verified: !already_verified,
                        credit_download: r.size,
                    })
                } else if on_disk_len is Some {
                    (RepairView { stage: RepairStage::Removing, ..w }, RepairActionView::Remove)
                } else {
                    (RepairView { stage: RepairStage::Fetching { attempts: 0 }, ..w }, RepairActionView::Fetch)
                }
            },
            _ => (v, RepairActionView::GiveUp),
        },
        RepairStage::Removing => (at(RepairStage::Fetching { attempts: 0 }), RepairActionView::Fetch),
        RepairStage::Fetching { attempts } => match e {
            RepairEventView::ConnectFailed(m) => retry_or_fail(attempts, m),
            RepairEventView::DownloadFailed(m) => retry_or_fail(attempts, m),
            RepairEventView::Downloaded { on_disk_len, contents } => if copy_ok(r, is_fast, on_disk_len, contents) {
                (at(RepairStage::Finished), RepairActionView::Accept { mark_verified: !v.already_verified, credit_download: 0 })
            } else {
                retry_or_fail(attempts, "Checksum mismatch"@)
            },
            _ => (v, RepairActionView::GiveUp),
        },
        RepairStage::Finished => (v, RepairActionView::GiveUp),
    }
}

/// The repair of one Yostar file.
pub struct YostarRepairJob {
    resource: KuroResource,
    is_fast: bool,
    stage: RepairStage,
    already_verified: bool,
    failure: Option<FailedChunk>,
}

pub open spec fn failure_view(f: Option<FailedChunk>) -> Option<(Seq<char>, Seq<char>, Seq<char>)> {
    match f {
        Some(c) => Some((c.file_name@, c.chunk_name@, c.error@)),
        None => None,
    }
}

impl YostarRepairJob {
    /// The file being repaired.
    pub closed spec fn resource_view(&self) -> KuroResource {
        self.resource
    }

    /// Whether copies are checked by length only.
    pub closed spec fn fast_view(&self) -> bool {
        self.is_fast
    }

    /// The repair as plain values.
    pub closed spec fn state(&self) -> RepairView {
        RepairView { stage: self.stage, already_verified: self.already_verified, failure: failure_view(self.failure) }
    }

    /// Never more failed attempts than allowed.
    pub open spec fn wf(&self) -> bool {
        self.state().stage matches RepairStage::Fetching { attempts } ==> attempts < RESOURCE_DOWNLOADS
    }

    /// The repair of `resource`; copies are checked by length only when
    /// `is_fast`.
    pub fn new(resource: KuroResource, is_fast: bool) -> (r: YostarRepairJob)
        ensures
            r.wf(),
            r.resource_view() == resource,
            r.fast_view() == is_fast,
            r.state() == (RepairView { stage: RepairStage::Start, already_verified: false, failure: None }),
    {
        YostarRepairJob { resource, is_fast, stage: RepairStage::Start, already_verified: false, failure: None }
    }

    /// The file being repaired.
    pub fn resource(&self) -> (r: &KuroResource)
        ensures
            *r == self.resource_view(),
    {
        &self.resource
    }

    /// The failure recorded, if the file could not be repaired.
    pub fn failure(&self) -> (r: &Option<FailedChunk>)
        ensures
            failure_view(*r) == self.state().failure,
    {
        &self.failure
    }

    fn check(&self, on_disk_len: Option<u64>, contents: &Option<Vec<u8>>) -> (r: bool)
        ensures
            r == copy_ok(self.resource_view(), self.fast_view(), on_disk_len, contents_view(*contents)),
    {
        match contents {
            Some(b) => self.resource.check(self.is_fast, on_disk_len, Some(b.as_slice())),
            None => self.resource.check(self.is_fast, on_disk_len, None),
        }
    }

    fn retry_or_fail(&mut self, attempts: usize, message: String) -> (r: RepairAction)
        requires
            attempts < RESOURCE_DOWNLOADS,
        ensures
            final(self).resource_view() == old(self).resource_view(),
            final(self).fast_view() == old(self).fast_view(),
            final(self).wf(),
            (final(self).state(), r@) == (if attempts + 1 < RESOURCE_DOWNLOADS {
                (RepairView { stage: RepairStage::Fetching { attempts: (attempts + 1) as usize }, ..old(self).state() }, RepairActionView::Fetch)
            } else {
                (RepairView {
                    stage: RepairStage::Finished,
                    failure: Some(repair_failure(old(self).resource_view(), message@)),
                    ..old(self).state()
                }, RepairActionView::GiveUp)
            }),
    {
        if attempts + 1 < RESOURCE_DOWNLOADS {
            self.stage = RepairStage::Fetching { attempts: attempts + 1 };
            RepairAction::Fetch
        } else {
            self.failure = Some(FailedChunk {
                file_name: self.resource.dest.clone(),
                chunk_name: self.resource.dest.clone(),
                error: message,
            });
            self.stage = RepairStage::Finished;
            RepairAction::GiveUp
        }
    }

    /// Takes the report of the last action and returns the next action.
    pub fn step(&mut self, event: RepairEvent) -> (r: RepairAction)
        requires
            old(self).wf(),
            repair_accepts(old(self).state().stage, event@),
        ensures
            final(self).wf(),
            final(self).resource_view() == old(self).resource_view(),
            final(self).fast_view() == old(self).fast_view(),
            (final(self).state(), r@) == yostar_repair_next(old(self).resource_view(), old(self).fast_view(), old(self).state(), event@),
    {
        match self.stage {
            RepairStage::Start => match event {
                RepairEvent::Inspected { already_verified, on_disk_len, contents } => {
                    self.already_verified = already_verified;
                    let exists = on_disk_len.is_some();
                    if exists && (already_verified || self.check(on_disk_len, &contents)) {
                        self.stage = RepairStage::Finished;
                        RepairAction::Accept { mark_verified: !already_verified, credit_download: self.resource.size }
                    } else if exists {
                        self.stage = RepairStage::Removing;
                        RepairAction::Remove
                    } else {
                        self.stage = RepairStage::Fetching { attempts: 0 };
                        RepairAction::Fetch
                    }
                },
                _ => RepairAction::GiveUp,
            },
            RepairStage::Removing => {
                self.stage = RepairStage::Fetching { attempts: 0 };
                RepairAction::Fetch
            },
            RepairStage::Fetching { attempts } => match event {
                RepairEvent::ConnectFailed(m) => self.retry_or_fail(attempts, m),
                RepairEvent::DownloadFailed(m) => self.retry_or_fail(attempts, m),
                RepairEvent::Downloaded { on_disk_len, contents } => {
                    let valid = self.check(on_disk_len, &contents);
                    match resource_step(attempts + 1, valid) {
                        ResourceStep::Credit => {
                            self.stage = RepairStage::Finished;
                            RepairAction::Accept { mark_verified: !self.already_verified, credit_download: 0 }
                        },
                        _ => self.retry_or_fail(attempts, String::from_str("Checksum mismatch")),
                    }
                },
                _ => RepairAction::GiveUp,
            },
            RepairStage::Finished => RepairAction::GiveUp,
        }
    }
}

/// A file is accepted only when its copy on disk exists and the session had
/// verified it or it passes its check, or when a download of it passes the
/// check.
pub proof fn law_repair_accepts_only_checked(r: KuroResource, is_fast: bool, v: RepairView, e: RepairEventView)
    requires
        repair_accepts(v.stage, e),
    ensures
        yostar_repair_next(r, is_fast, v, e).1 is Accept ==> (
            (e matches RepairEventView::Inspected { already_verified, on_disk_len, contents }
                && on_disk_len is Some && (already_verified || copy_ok(r, is_fast, on_disk_len, contents)))
            || (e matches RepairEventView::Downloaded { on_disk_len, contents } && copy_ok(r, is_fast, on_disk_len, contents))),
{
}

/// A file is given up only on the last allowed download, and then a failure
/// is recorded for it.
pub proof fn law_repair_gives_up_after_all_attempts(r: KuroResource, is_fast: bool, v: RepairView, e: RepairEventView)
    requires
        repair_accepts(v.stage, e),
        v.stage matches RepairStage::Fetching { attempts } ==> attempts < RESOURCE_DOWNLOADS,
    ensures
        yostar_repair_next(r, is_fast, v, e).1 is GiveUp ==> (
            v.stage == (RepairStage::Fetching { attempts: (RESOURCE_DOWNLOADS - 1) as usize })
            && yostar_repair_next(r, is_fast, v, e).0.failure is Some),
{
}

} // verus!
