//! The blocking downloader: its settings, the file name it saves to, and the
//! decisions it takes while resuming, checking free space and writing chunks.
//! The requests and the file operations themselves are made by the caller.

use vstd::prelude::*;
use crate::text::{is_path_sep, last_path_sep, rfind_path_sep, decimal, parse_u64, parse_u64_spec, str_contains, contains_seq, u64_to_decimal};

verus! {

/// Size of the buffer that is written to disk at once (128 KiB).
pub const DEFAULT_CHUNK_SIZE: usize = 131072;

/// Why a download failed. Paths are carried as text.
#[derive(Debug, Clone, PartialEq, Eq)]
pub enum DownloadingError {
    PathNotMounted(String),
    NoSpaceAvailable(String, u64, u64),
    OutputFileError(String, String),
    OutputFileMetadataError(String, String),
    Reqwest(String),
}

/// A download of one URI into one file.
#[derive(Debug)]
pub struct Downloader {
    uri: String,
    length: Option<u64>,
    pub chunk_size: usize,
    pub continue_downloading: bool,
    pub check_free_space: bool,
}

/// One call of a `with_*` builder of a downloader, with its argument.
#[derive(Debug, Clone, Copy, PartialEq, Eq, Structural)]
pub enum BuilderStep {
    ChunkSize(usize),
    ContinueDownloading(bool),
    FreeSpaceCheck(bool),
}

/// The downloader after the builder calls `steps`, in order.
pub open spec fn after_steps(d: Downloader, steps: Seq<BuilderStep>) -> Downloader
    decreases steps.len(),
{
    if steps.len() == 0 {
        d
    } else {
        after_steps(d, steps.drop_last()).with_step(steps.last())
    }
}

/// What to do with a partly present output file.
#[derive(Debug, Clone, Copy, PartialEq, Eq, Structural)]
pub enum ResumeDecision {
    /// The file already has the full length: nothing to download.
    Complete,
    /// The file is longer than the content: cut it to this length, then stop.
    Truncate(u64),
    /// Continue writing after this many bytes.
    Resume(u64),
}

/// One write of buffered bytes and the progress reported after it.
#[derive(Debug, Clone, Copy, PartialEq, Eq, Structural)]
pub struct ChunkWrite {
    /// First byte of the received body that this write holds.
    pub start: usize,
    /// One past the last byte of the received body that this write holds.
    pub end: usize,
    /// Bytes downloaded once the write is done.
    pub current: u64,
    /// Total that is reported with `current`.
    pub total: u64,
}

/// Whether the scheme separator `://` (either slash may be a backslash)
/// starts at position `i` of `u`.
pub open spec fn is_scheme_sep_at(u: Seq<char>, i: int) -> bool {
    0 <= i && i + 3 <= u.len() && u[i] == ':' && is_path_sep(u[i + 1]) && is_path_sep(u[i + 2])
}

/// The position of the first scheme separator at or after `i`; -1 when there
/// is none.
pub open spec fn scheme_sep_from(u: Seq<char>, i: int) -> int
    decreases u.len() - i,
{
    if i < 0 || i + 3 > u.len() {
        -1
    } else if is_scheme_sep_at(u, i) {
        i
    } else {
        scheme_sep_from(u, i + 1)
    }
}

/// The URI names no path: its last separator is the second slash of the
/// scheme's own `://`, the first one in the URI.
pub open spec fn ends_scheme(u: Seq<char>, p: int) -> bool {
    scheme_sep_from(u, 0) >= 0 && p == scheme_sep_from(u, 0) + 2
}

/// The name of the file a URI is saved to: the text after its last
/// separator, or `index.html` when that text is empty or the URI has no path.
pub open spec fn filename_of(u: Seq<char>) -> Seq<char> {
    let p = last_path_sep(u);
    if p >= 0 && p + 1 < u.len() && !ends_scheme(u, p) {
        u.subrange(p + 1, u.len() as int)
    } else {
        "index.html"@
    }
}

fn scheme_sep(u: &str) -> (r: Option<usize>)
    ensures
        match r {
            Some(i) => scheme_sep_from(u@, 0) == i as int && i + 3 <= u@.len(),
            None => scheme_sep_from(u@, 0) == -1,
        },
{
    let n = u.unicode_len();
    let mut i: usize = 0;
    while i < n && n - i >= 3
        invariant
            n == u@.len(),
            i <= n,
            scheme_sep_from(u@, 0) == scheme_sep_from(u@, i as int),
        decreases n - i,
    {
        let a = u.get_char(i);
        let b = u.get_char(i + 1);
        let c = u.get_char(i + 2);
        if a == ':' && (b == '/' || b == '\\') && (c == '/' || c == '\\') {
            return Some(i);
        }
        i += 1;
    }
    None
}

/// A write as plain numbers: (start, end, current, total).
pub open spec fn write_numbers(w: ChunkWrite) -> (int, int, int, int) {
    (w.start as int, w.end as int, w.current as int, w.total as int)
}

/// The writes that store `n` received bytes, `c` bytes at a time, after `d0`
/// bytes that were already on disk; a last shorter write holds the rest.
/// Each write is (start, end, current, total): the part of the body it holds
/// and the progress reported after it.
pub open spec fn planned_writes(d0: int, n: int, c: int, length: Option<u64>) -> Seq<(int, int, int, int)>
    decreases n,
{
    if n <= 0 {
        Seq::empty()
    } else if c <= 0 || n < c {
        seq![(0, n, d0 + n, d0 + n)]
    } else {
        let total = match length {
            Some(l) => l as int,
            None => d0 + c,
        };
        seq![(0, c, d0 + c, total)] + shift_writes(planned_writes(d0 + c, n - c, c, length), c)
    }
}

/// Moves every write `by` bytes further into the received body.
pub open spec fn shift_writes(w: Seq<(int, int, int, int)>, by: int) -> Seq<(int, int, int, int)> {
    Seq::new(w.len(), |i: int| (w[i].0 + by, w[i].1 + by, w[i].2, w[i].3))
}

impl Downloader {
    /// The URI that is downloaded.
    pub closed spec fn uri_view(&self) -> Seq<char> {
        self.uri@
    }

    /// The content length the server announced, if any.
    pub closed spec fn length_view(&self) -> Option<u64> {
        self.length
    }

    /// Bytes buffered before each write.
    pub closed spec fn chunk_size_view(&self) -> usize {
        self.chunk_size
    }

    /// Whether a present output file is continued.
    pub closed spec fn continues(&self) -> bool {
        self.continue_downloading
    }

    /// Whether free space is checked before downloading.
    pub closed spec fn checks_space(&self) -> bool {
        self.check_free_space
    }

    /// A downloader for `uri` whose HEAD response carried `content_length`
    /// (the `content-length` header, if present), with the default settings:
    /// 128 KiB chunks, resuming and free-space checking on.
    pub fn from_head(uri: &str, content_length: Option<&str>) -> (r: Downloader)
        requires
            content_length matches Some(t) ==> parse_u64_spec(t@) is Some,
        ensures
            r.uri_view() == uri@,
            r.length_view() == (match content_length {
                Some(t) => parse_u64_spec(t@),
                None => None,
            }),
            r.chunk_size_view() == DEFAULT_CHUNK_SIZE,
            r.continues(),
            r.checks_space(),
    {
        let length = match content_length {
            Some(t) => parse_u64(t),
            None => None,
        };
        Downloader {
            uri: String::from_str(uri),
            length,
            chunk_size: DEFAULT_CHUNK_SIZE,
            continue_downloading: true,
            check_free_space: true,
        }
    }

    /// The downloader after one builder call.
    pub closed spec fn with_step(self, step: BuilderStep) -> Downloader {
        match step {
            BuilderStep::ChunkSize(c) => Downloader { chunk_size: c, ..self },
            BuilderStep::ContinueDownloading(b) => Downloader { continue_downloading: b, ..self },
            BuilderStep::FreeSpaceCheck(b) => Downloader { check_free_space: b, ..self },
        }
    }

    /// Sets the chunk size.
    pub fn with_chunk_size(self, chunk_size: usize) -> (r: Self)
        ensures
            r == self.with_step(BuilderStep::ChunkSize(chunk_size)),
            r.chunk_size_view() == chunk_size,
            r.uri_view() == self.uri_view(),
            r.length_view() == self.length_view(),
            r.continues() == self.continues(),
            r.checks_space() == self.checks_space(),
    {
        Downloader { chunk_size, ..self }
    }

    /// Sets whether a present file is continued.
    pub fn with_continue_downloading(self, continue_downloading: bool) -> (r: Self)
        ensures
            r == self.with_step(BuilderStep::ContinueDownloading(continue_downloading)),
            r.continues() == continue_downloading,
            r.uri_view() == self.uri_view(),
            r.length_view() == self.length_view(),
            r.chunk_size_view() == self.chunk_size_view(),
            r.checks_space() == self.checks_space(),
    {
        Downloader { continue_downloading, ..self }
    }

    /// Sets whether free space is checked before downloading.
    pub fn with_free_space_check(self, check_free_space: bool) -> (r: Self)
        ensures
            r == self.with_step(BuilderStep::FreeSpaceCheck(check_free_space)),
            r.checks_space() == check_free_space,
            r.uri_view() == self.uri_view(),
            r.length_view() == self.length_view(),
            r.chunk_size_view() == self.chunk_size_view(),
            r.continues() == self.continues(),
    {
        Downloader { check_free_space, ..self }
    }

    /// The announced content length.
    pub fn length(&self) -> (r: Option<u64>)
        ensures
            r == self.length_view(),
    {
        self.length
    }

    /// The URI that is downloaded.
    pub fn uri(&self) -> (r: &str)
        ensures
            r@ == self.uri_view(),
    {
        self.uri.as_str()
    }

    /// Name of the downloaded file, taken from the URI:
    /// - `https://example.com/example.zip` -> `example.zip`
    /// - `https://example.com` -> `index.html`
    /// - `https://h.com/p/https://x` -> `x`
    pub fn get_filename(&self) -> (r: &str)
        ensures
            r@ == filename_of(self.uri_view()),
    {
        let u = self.uri.as_str();
        let n = u.unicode_len();
        match rfind_path_sep(u) {
            Some(p) => {
                if p + 1 < n {
                    let scheme_end = match scheme_sep(u) {
                        Some(i) => p == i + 2,
                        None => false,
                    };
                    if !scheme_end {
                        return u.substring_char(p + 1, n);
                    }
                }
                "index.html"
            },
            None => "index.html",
        }
    }

    /// What to do when the output file already holds `existing_len` bytes and
    /// downloads are continued.
    pub fn resume_decision(&self, existing_len: u64) -> (r: ResumeDecision)
        ensures
            r == (match self.length_view() {
                Some(l) => if existing_len < l {
                    ResumeDecision::Resume(existing_len)
                } else if existing_len == l {
                    ResumeDecision::Complete
                } else {
                    ResumeDecision::Truncate(l)
                },
                None => ResumeDecision::Resume(existing_len),
            }),
    {
        match self.length {
            Some(l) => {
                if existing_len < l {
                    ResumeDecision::Resume(existing_len)
                } else if existing_len == l {
                    ResumeDecision::Complete
                } else {
                    ResumeDecision::Truncate(l)
                }
            },
            None => ResumeDecision::Resume(existing_len),
        }
    }

    /// The free-space check for writing to `path`, whose disk has `available`
    /// free bytes (`None` when no mounted disk holds the path), after
    /// `downloaded` bytes are already present.
    pub fn free_space_check(&self, path: &str, available: Option<u64>, downloaded: u64) -> (r: Result<(), DownloadingError>)
        ensures
            !self.checks_space() ==> r is Ok,
            self.checks_space() ==> match available {
                None => r matches Err(DownloadingError::PathNotMounted(p)) && p@ == path@,
                Some(space) => match self.length_view() {
                    None => r is Ok,
                    Some(l) => {
                        let required = if l >= downloaded { (l - downloaded) as u64 } else { 0u64 };
                        if space < required {
                            r matches Err(DownloadingError::NoSpaceAvailable(p, req, sp))
                                && p@ == path@ && req == required && sp == space
                        } else {
                            r is Ok
                        }
                    },
                },
            },
    {
        if !self.check_free_space {
            return Ok(());
        }
        match available {
            None => Err(DownloadingError::PathNotMounted(String::from_str(path))),
            Some(space) => match self.length {
                None => Ok(()),
                Some(l) => {
                    let required = if l >= downloaded { l - downloaded } else { 0 };
                    if space < required {
                        Err(DownloadingError::NoSpaceAvailable(String::from_str(path), required, space))
                    } else {
                        Ok(())
                    }
                },
            },
        }
    }

    /// The progress reported when the server says the file is already complete.
    pub fn finished_report(&self, downloaded: u64) -> (r: (u64, u64))
        ensures
            r.0 == r.1,
            r.0 == (match self.length_view() {
                Some(l) => l,
                None => downloaded,
            }),
    {
        let t = match self.length {
            Some(l) => l,
            None => downloaded,
        };
        (t, t)
    }

    /// How `received` body bytes are written after `downloaded` bytes that are
    /// already on disk, and the progress reported after each write.
    pub fn chunk_plan(&self, downloaded: u64, received: usize) -> (r: Vec<ChunkWrite>)
        requires
            downloaded + received <= u64::MAX,
        ensures
            r@.map_values(|w: ChunkWrite| write_numbers(w)) == planned_writes(downloaded as int, received as int, self.chunk_size_view() as int, self.length_view()),
    {
        let c = self.chunk_size;
        let ghost whole = planned_writes(downloaded as int, received as int, c as int, self.length_view());
        let mut out: Vec<ChunkWrite> = Vec::new();
        let mut pos: usize = 0;
        let mut done: u64 = downloaded;
        while c > 0 && received - pos >= c
            invariant
                pos <= received,
                done == downloaded + pos,
                downloaded + received <= u64::MAX,
                c == self.chunk_size_view(),
                whole == planned_writes(downloaded as int, received as int, c as int, self.length_view()),
                out@.map_values(|w: ChunkWrite| write_numbers(w))
                    + shift_writes(planned_writes(done as int, (received - pos) as int, c as int, self.length_view()), pos as int)
                    =~= whole,
            decreases received - pos,
        {
            let ghost rest = planned_writes(done as int, (received - pos) as int, c as int, self.length_view());
            let ghost rest2 = planned_writes((done + c) as int, (received - pos - c) as int, c as int, self.length_view());
            let w = ChunkWrite {
                start: pos,
                end: pos + c,
                current: done + c as u64,
                total: match self.length {
                    Some(l) => l,
                    None => done + c as u64,
                },
            };
            assert(shift_writes(rest, pos as int) =~= seq![write_numbers(w)] + shift_writes(rest2, (pos + c) as int));
            let ghost before = out@.map_values(|w: ChunkWrite| write_numbers(w));
            out.push(w);
            assert(out@.map_values(|w: ChunkWrite| write_numbers(w)) =~= before.push(write_numbers(w)));
            pos = pos + c;
            done = done + c as u64;
        }
        let ghost before = out@.map_values(|w: ChunkWrite| write_numbers(w));
        if pos < received {
            let ghost rest = planned_writes(done as int, (received - pos) as int, c as int, self.length_view());
            let last = ChunkWrite {
                start: pos,
                end: received,
                current: downloaded + received as u64,
                total: downloaded + received as u64,
            };
            assert(shift_writes(rest, pos as int) =~= seq![write_numbers(last)]);
            out.push(last);
            assert(out@.map_values(|w: ChunkWrite| write_numbers(w)) =~= before.push(write_numbers(last)));
        } else {
            assert(shift_writes(planned_writes(done as int, 0, c as int, self.length_view()), pos as int) =~= Seq::<(int, int, int, int)>::empty());
        }
        out
    }
}

/// Any chain of builder calls keeps the URI and the content length that the
/// server announced, so `length()` answers the same after it.
pub proof fn law_builders_keep_length(d: Downloader, steps: Seq<BuilderStep>)
    ensures
        after_steps(d, steps).length_view() == d.length_view(),
        after_steps(d, steps).uri_view() == d.uri_view(),
    decreases steps.len(),
{
    if steps.len() > 0 {
        law_builders_keep_length(d, steps.drop_last());
    }
}

/// The planned writes cover the received body exactly once, in order, each
/// holding at most one chunk, and the progress reported after each write is
/// the number of bytes then on disk.
pub proof fn law_chunk_plan_covers(d0: int, n: int, c: int, length: Option<u64>)
    requires
        n > 0,
    ensures
        ({
            let w = planned_writes(d0, n, c, length);
            &&& w.len() > 0
            &&& w[0].0 == 0
            &&& w.last().1 == n
            &&& forall|i: int| 0 <= i < w.len() - 1 ==> #[trigger] w[i].1 == w[i + 1].0
            &&& forall|i: int| 0 <= i < w.len() ==> #[trigger] w[i].0 < w[i].1 && w[i].2 == d0 + w[i].1
            &&& c > 0 ==> forall|i: int| 0 <= i < w.len() ==> #[trigger] w[i].1 - w[i].0 <= c
        }),
    decreases n,
{
    let w = planned_writes(d0, n, c, length);
    if c <= 0 || n < c {
    } else if n == c {
        assert(planned_writes(d0 + c, 0, c, length) =~= Seq::<(int, int, int, int)>::empty());
        assert(w =~= seq![(0, c, d0 + c, match length { Some(l) => l as int, None => d0 + c })]);
    } else {
        law_chunk_plan_covers(d0 + c, n - c, c, length);
        let rest = planned_writes(d0 + c, n - c, c, length);
        let sh = shift_writes(rest, c);
        assert(w == seq![w[0]] + sh);
        assert forall|i: int| 0 <= i < w.len() - 1 implies #[trigger] w[i].1 == w[i + 1].0 by {
            if i > 0 {
                assert(w[i] == sh[i - 1]);
                assert(w[i + 1] == sh[i]);
            }
        }
        assert forall|i: int| 0 <= i < w.len() implies #[trigger] w[i].0 < w[i].1 && w[i].2 == d0 + w[i].1 by {
            if i > 0 {
                assert(w[i] == sh[i - 1]);
            }
        }
        assert(c > 0 ==> forall|i: int| 0 <= i < w.len() ==> #[trigger] w[i].1 - w[i].0 <= c) by {
            assert forall|i: int| 0 <= i < w.len() implies #[trigger] w[i].1 - w[i].0 <= c by {
                if i > 0 {
                    assert(w[i] == sh[i - 1]);
                }
            }
        }
        assert(w.last() == sh.last());
    }
}

/// The `Range` header that asks for everything after `downloaded` bytes.
pub fn range_header(downloaded: u64) -> (r: String)
    ensures
        r@ == "bytes="@ + decimal(downloaded as nat) + "-"@,
{
    let mut h = String::from_str("bytes=");
    let d = u64_to_decimal(downloaded);
    h.append(d.as_str());
    h.append("-");
    h
}

/// Whether a `content-range` header says the whole content is already present
/// (it holds `*/`).
pub fn range_is_complete(content_range: &str) -> (r: bool)
    ensures
        r == contains_seq(content_range@, "*/"@),
{
    str_contains(content_range, "*/")
}

} // verus!
