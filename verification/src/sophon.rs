//! Sophon (chunked) manifests of HoYoverse games: the files and patches they
//! list, the totals that progress is measured against, which files need
//! downloading, and how each patch chunk is applied. Decoding the manifests,
//! downloading and patching files are done by the caller.

use vstd::prelude::*;
use vstd::slice::slice_subrange;
use crate::text::{ascii_lower, str_eq};
use crate::totals::{checked_total, checked_total_spec, lemma_sum_u64_concat, sum_u64};
use crate::digest::{chksum_md5_hex, validate_checksum};

verus! {

/// A chunk or file that could not be fetched, reported after a download.
#[derive(Clone, Debug)]
pub struct FailedChunk {
    pub file_name: String,
    pub chunk_name: String,
    pub error: String,
}


/// A compressed chunk of a file in a full manifest.
#[derive(Debug, Clone, PartialEq, Eq)]
pub struct SophonChunk {
    pub chunk_name: String,
    pub chunk_md5: String,
    pub chunk_on_file_offset: u64,
    pub chunk_size: u64,
    pub chunk_decompressed_size: u64,
}

/// A file of a full manifest.
#[derive(Debug, Clone, PartialEq, Eq)]
pub struct SophonFile {
    pub name: String,
    pub chunks: Vec<SophonChunk>,
    pub file_type: u32,
    pub size: u64,
    pub md5: String,
}

/// A full manifest.
#[derive(Debug, Clone, PartialEq, Eq)]
pub struct SophonManifest {
    pub files: Vec<SophonFile>,
}

/// The part of a patch archive that updates one file from one version.
#[derive(Debug, Clone, PartialEq, Eq)]
pub struct PatchChunk {
    pub patch_name: String,
    pub patch_md5: String,
    pub patch_size: u64,
    pub patch_offset: u64,
    pub patch_length: u64,
    pub original_filename: String,
}

/// A file of a patch manifest with its patches, keyed by the version they
/// update from.
#[derive(Debug, Clone, PartialEq, Eq)]
pub struct PatchFile {
    pub name: String,
    pub size: u64,
    pub md5: String,
    pub chunks: Vec<(String, PatchChunk)>,
}

/// A patch manifest: the files it patches and, per version, the files it removes.
#[derive(Debug, Clone, PartialEq, Eq)]
pub struct SophonDiff {
    pub files: Vec<PatchFile>,
    pub delete_files: Vec<(String, Vec<String>)>,
}

/// The manifest type of a directory entry, which has no contents to fetch.
pub const DIRECTORY_TYPE: u32 = 64;

/// Whether a manifest entry is a directory.
pub open spec fn is_directory(f: SophonFile) -> bool {
    f.file_type == DIRECTORY_TYPE
}

/// What `zstd::decode_all` makes of `data`: the decompressed bytes, or
/// `None` when `data` is not a valid zstd stream.
pub uninterp spec fn zstd_decoded(data: Seq<u8>) -> Option<Seq<u8>>;

/// Calls `zstd::decode_all` on bytes in memory; its error becomes `None`.
/// Claims that the outcome is the one named `zstd_decoded` of `data`.
#[verifier::external_body]
fn zstd_decode(data: &[u8]) -> (r: Option<Vec<u8>>)
    ensures
        match r {
            Some(v) => zstd_decoded(data@) == Some(v@),
            None => zstd_decoded(data@) is None,
        },
{
    match zstd::decode_all(data) {
        Ok(v) => Some(v),
        Err(_) => None,
    }
}

/// The bytes of a downloaded manifest (Sophon manifests and patch
/// manifests are served zstd-compressed): their zstd decompression, `None`
/// when they are not a valid zstd stream.
pub fn decode_manifest(compressed: &[u8]) -> (r: Option<Vec<u8>>)
    ensures
        match r {
            Some(v) => zstd_decoded(compressed@) == Some(v@),
            None => zstd_decoded(compressed@) is None,
        },
{
    zstd_decode(compressed)
}

impl SophonChunk {
    /// Whether the downloaded bytes of the chunk (`None` when unreadable)
    /// pass its MD5 checksum.
    pub open spec fn download_valid(&self, downloaded: Option<Seq<u8>>) -> bool {
        match downloaded {
            Some(d) => chksum_md5_hex(d) == ascii_lower(self.chunk_md5@),
            None => false,
        }
    }

    /// The bytes the chunk contributes to its file, from its downloaded bytes
    /// (`None` when unreadable): their zstd decompression when they pass the
    /// chunk's MD5 checksum; `None` when the check fails or they do not
    /// decode.
    pub fn contents(&self, downloaded: Option<&[u8]>) -> (r: Option<Vec<u8>>)
        ensures
            match downloaded {
                Some(d) => if self.download_valid(Some(d@)) {
                    match r {
                        Some(v) => zstd_decoded(d@) == Some(v@),
                        None => zstd_decoded(d@) is None,
                    }
                } else {
                    r is None
                },
                None => r is None,
            },
    {
        match downloaded {
            Some(d) => {
                if validate_checksum(Some(d), self.chunk_md5.as_str()) {
                    zstd_decode(d)
                } else {
                    None
                }
            },
            None => None,
        }
    }
}

/// Compressed sizes of chunks.
pub open spec fn chunk_sizes(c: Seq<SophonChunk>) -> Seq<u64> {
    c.map_values(|x: SophonChunk| x.chunk_size)
}

/// Sizes of the files (not directories) of a manifest, in order.
pub open spec fn install_sizes(files: Seq<SophonFile>) -> Seq<u64>
    decreases files.len(),
{
    if files.len() == 0 {
        Seq::empty()
    } else if is_directory(files.last()) {
        install_sizes(files.drop_last())
    } else {
        install_sizes(files.drop_last()).push(files.last().size)
    }
}

/// Compressed sizes of all chunks of the files (not directories) of a manifest.
pub open spec fn download_sizes(files: Seq<SophonFile>) -> Seq<u64>
    decreases files.len(),
{
    if files.len() == 0 {
        Seq::empty()
    } else if is_directory(files.last()) {
        download_sizes(files.drop_last())
    } else {
        download_sizes(files.drop_last()) + chunk_sizes(files.last().chunks@)
    }
}

fn push_all(out: &mut Vec<u64>, c: &Vec<SophonChunk>)
    ensures
        final(out)@ == old(out)@ + chunk_sizes(c@),
{
    let n = c.len();
    let mut i: usize = 0;
    let ghost start = out@;
    while i < n
        invariant
            n == c@.len(),
            i <= n,
            out@ =~= start + chunk_sizes(c@.subrange(0, i as int)),
        decreases n - i,
    {
        out.push(c[i].chunk_size);
        assert(chunk_sizes(c@.subrange(0, i + 1)) =~= chunk_sizes(c@.subrange(0, i as int)).push(c@[i as int].chunk_size));
        i += 1;
    }
    assert(c@.subrange(0, n as int) =~= c@);
}

impl SophonManifest {
    /// The size of the installed game: the sizes of all files, or `None`
    /// when the sum exceeds a `u64`.
    pub fn install_total(&self) -> (r: Option<u64>)
        ensures
            r == checked_total_spec(install_sizes(self.files@)),
    {
        let n = self.files.len();
        let mut sizes: Vec<u64> = Vec::new();
        let mut i: usize = 0;
        while i < n
            invariant
                n == self.files@.len(),
                i <= n,
                sizes@ == install_sizes(self.files@.subrange(0, i as int)),
            decreases n - i,
        {
            let ghost next = self.files@.subrange(0, i + 1);
            assert(next.drop_last() =~= self.files@.subrange(0, i as int));
            if self.files[i].file_type != DIRECTORY_TYPE {
                sizes.push(self.files[i].size);
            }
            i += 1;
        }
        assert(self.files@.subrange(0, n as int) =~= self.files@);
        checked_total(&sizes)
    }

    /// The size of the download: the compressed sizes of all chunks of all
    /// files, or `None` when the sum exceeds a `u64`.
    pub fn download_total(&self) -> (r: Option<u64>)
        ensures
            r == checked_total_spec(download_sizes(self.files@)),
    {
        let n = self.files.len();
        let mut sizes: Vec<u64> = Vec::new();
        let mut i: usize = 0;
        while i < n
            invariant
                n == self.files@.len(),
                i <= n,
                sizes@ == download_sizes(self.files@.subrange(0, i as int)),
            decreases n - i,
        {
            let ghost next = self.files@.subrange(0, i + 1);
            assert(next.drop_last() =~= self.files@.subrange(0, i as int));
            if self.files[i].file_type != DIRECTORY_TYPE {
                push_all(&mut sizes, &self.files[i].chunks);
            }
            i += 1;
        }
        assert(self.files@.subrange(0, n as int) =~= self.files@);
        checked_total(&sizes)
    }
}

impl SophonFile {
    /// The compressed size of a file: the sum of its chunk sizes, or `None`
    /// when it exceeds a `u64`.
    pub fn compressed_size(&self) -> (r: Option<u64>)
        ensures
            r == checked_total_spec(chunk_sizes(self.chunks@)),
    {
        let mut sizes: Vec<u64> = Vec::new();
        push_all(&mut sizes, &self.chunks);
        assert(sizes@ =~= chunk_sizes(self.chunks@));
        checked_total(&sizes)
    }

    /// Whether the staged copy of the file is good. With `is_fast` its
    /// length (`on_disk_len`, `None` when it is missing) must equal the
    /// file's size; otherwise its contents (`None` when missing or
    /// unreadable) must pass the file's MD5 checksum.
    pub fn staged_valid(&self, is_fast: bool, on_disk_len: Option<u64>, contents: Option<&[u8]>) -> (r: bool)
        ensures
            is_fast ==> r == (on_disk_len == Some(self.size)),
            !is_fast ==> r == (match contents {
                Some(c) => chksum_md5_hex(c@) == ascii_lower(self.md5@),
                None => false,
            }),
    {
        if is_fast {
            match on_disk_len {
                Some(l) => l == self.size,
                None => false,
            }
        } else {
            validate_checksum(contents, self.md5.as_str())
        }
    }

    /// Whether the file must be fetched: directories never are, nor files
    /// that this session already verified (`already_verified`), nor files
    /// whose staged copy exists and passes its check (`staged_valid`).
    pub fn needs_download(&self, already_verified: bool, staged_valid: bool) -> (r: bool)
        ensures
            r == (!is_directory(*self) && !already_verified && !staged_valid),
    {
        self.file_type != DIRECTORY_TYPE && !already_verified && !staged_valid
    }
}

/// The compressed sizes of the files (not directories) of a manifest, each
/// the sum of its chunk sizes, added up file by file.
pub open spec fn per_file_download_sum(files: Seq<SophonFile>) -> int
    decreases files.len(),
{
    if files.len() == 0 {
        0
    } else if is_directory(files.last()) {
        per_file_download_sum(files.drop_last())
    } else {
        per_file_download_sum(files.drop_last()) + sum_u64(chunk_sizes(files.last().chunks@))
    }
}

/// The download total of a manifest is the sum of the compressed sizes of
/// its files: crediting each skipped file with its compressed size accounts
/// for exactly the bytes that were not downloaded.
pub proof fn law_download_total_per_file(files: Seq<SophonFile>)
    ensures
        sum_u64(download_sizes(files)) == per_file_download_sum(files),
    decreases files.len(),
{
    if files.len() > 0 {
        law_download_total_per_file(files.drop_last());
        if !is_directory(files.last()) {
            lemma_sum_u64_concat(download_sizes(files.drop_last()), chunk_sizes(files.last().chunks@));
        }
    }
}

/// The patches of `chunks` that update from version `v`, in order.
pub open spec fn chunks_for(chunks: Seq<(String, PatchChunk)>, v: Seq<char>) -> Seq<PatchChunk>
    decreases chunks.len(),
{
    if chunks.len() == 0 {
        Seq::empty()
    } else if chunks.last().0@ == v {
        chunks_for(chunks.drop_last(), v).push(chunks.last().1)
    } else {
        chunks_for(chunks.drop_last(), v)
    }
}

/// For each file and each of its patches from version `v`, the file's size.
pub open spec fn patch_install_sizes(files: Seq<PatchFile>, v: Seq<char>) -> Seq<u64>
    decreases files.len(),
{
    if files.len() == 0 {
        Seq::empty()
    } else {
        patch_install_sizes(files.drop_last(), v)
            + Seq::new(chunks_for(files.last().chunks@, v).len(), |i: int| files.last().size)
    }
}

/// All patches from version `v`, file by file.
pub open spec fn all_chunks_for(files: Seq<PatchFile>, v: Seq<char>) -> Seq<PatchChunk>
    decreases files.len(),
{
    if files.len() == 0 {
        Seq::empty()
    } else {
        all_chunks_for(files.drop_last(), v) + chunks_for(files.last().chunks@, v)
    }
}

/// Sizes of the patch archives that `c` names, each archive counted at its
/// first mention only.
pub open spec fn distinct_patch_sizes(c: Seq<PatchChunk>) -> Seq<u64>
    decreases c.len(),
{
    if c.len() == 0 {
        Seq::empty()
    } else if exists|j: int| 0 <= j < c.len() - 1 && #[trigger] c[j].patch_name@ == c.last().patch_name@ {
        distinct_patch_sizes(c.drop_last())
    } else {
        distinct_patch_sizes(c.drop_last()).push(c.last().patch_size)
    }
}

/// The archive names of patches, in order.
pub open spec fn patch_names(c: Seq<PatchChunk>) -> Seq<Seq<char>> {
    c.map_values(|p: PatchChunk| p.patch_name@)
}

/// Patches whose archive is named anywhere earlier (not only just before)
/// add nothing to the sizes a preload downloads.
pub proof fn law_repeated_archives_add_nothing(a: Seq<PatchChunk>, b: Seq<PatchChunk>)
    requires
        forall|i: int| 0 <= i < b.len() ==> patch_names(a).contains(#[trigger] b[i].patch_name@),
    ensures
        distinct_patch_sizes(a + b) == distinct_patch_sizes(a),
    decreases b.len(),
{
    if b.len() == 0 {
        assert(a + b =~= a);
    } else {
        let d = b.drop_last();
        assert forall|k: int| 0 <= k < d.len() implies patch_names(a).contains(#[trigger] d[k].patch_name@) by {
            assert(d[k] == b[k]);
        }
        law_repeated_archives_add_nothing(a, d);
        let c = a + b;
        assert(c.drop_last() =~= a + d);
        let x = b[b.len() - 1];
        assert(patch_names(a).contains(x.patch_name@));
        let j = choose|j: int| 0 <= j < patch_names(a).len() && patch_names(a)[j] == x.patch_name@;
        assert(c[j] == a[j]);
        assert(c.last() == x);
        assert(0 <= j < c.len() - 1 && c[j].patch_name@ == c.last().patch_name@);
    }
}

/// A patch whose archive is named nowhere earlier adds its archive's size.
pub proof fn law_new_archive_adds_its_size(a: Seq<PatchChunk>, x: PatchChunk)
    requires
        forall|j: int| 0 <= j < a.len() ==> a[j].patch_name@ != x.patch_name@,
    ensures
        distinct_patch_sizes(a.push(x)) == distinct_patch_sizes(a).push(x.patch_size),
{
    let c = a.push(x);
    assert(c.drop_last() =~= a);
    assert(forall|j: int| 0 <= j < c.len() - 1 ==> c[j] == a[j]);
}

/// The sizes a preload downloads hold exactly one entry per distinct
/// archive name.
pub proof fn law_one_size_per_archive_name(c: Seq<PatchChunk>)
    ensures
        distinct_patch_sizes(c).len() == patch_names(c).to_set().len(),
    decreases c.len(),
{
    if c.len() == 0 {
        assert(patch_names(c).to_set() =~= Set::<Seq<char>>::empty());
    } else {
        let prev = patch_names(c.drop_last());
        let x = c.last().patch_name@;
        law_one_size_per_archive_name(c.drop_last());
        assert(patch_names(c) =~= prev.push(x));
        prev.lemma_push_to_set_commute(x);
        vstd::seq_lib::seq_to_set_is_finite(prev);
        if exists|j: int| 0 <= j < c.len() - 1 && #[trigger] c[j].patch_name@ == c.last().patch_name@ {
            let j = choose|j: int| 0 <= j < c.len() - 1 && #[trigger] c[j].patch_name@ == c.last().patch_name@;
            assert(prev[j] == x);
            assert(prev.contains(x));
            assert(prev.to_set().insert(x) =~= prev.to_set());
        } else {
            assert(!prev.contains(x)) by {
                if prev.contains(x) {
                    let k = choose|k: int| 0 <= k < prev.len() && prev[k] == x;
                    assert(c[k].patch_name@ == c.last().patch_name@);
                }
            }
            assert(!prev.to_set().contains(x));
        }
    }
}

/// Names of the files removed when updating from version `v`.
pub open spec fn purge_names(d: Seq<(String, Vec<String>)>, v: Seq<char>) -> Seq<String>
    decreases d.len(),
{
    if d.len() == 0 {
        Seq::empty()
    } else if d.last().0@ == v {
        purge_names(d.drop_last(), v) + d.last().1@
    } else {
        purge_names(d.drop_last(), v)
    }
}

impl PatchChunk {
    /// A copy of this patch.
    pub fn copied(&self) -> (r: PatchChunk)
        ensures
            r == *self,
    {
        PatchChunk {
            patch_name: self.patch_name.clone(),
            patch_md5: self.patch_md5.clone(),
            patch_size: self.patch_size,
            patch_offset: self.patch_offset,
            patch_length: self.patch_length,
            original_filename: self.original_filename.clone(),
        }
    }
}

impl PatchFile {
    /// The patches of this file that update from `version`, in order.
    pub fn chunks_for(&self, version: &str) -> (r: Vec<PatchChunk>)
        ensures
            r@ == chunks_for(self.chunks@, version@),
    {
        let n = self.chunks.len();
        let mut out: Vec<PatchChunk> = Vec::new();
        let mut i: usize = 0;
        while i < n
            invariant
                n == self.chunks@.len(),
                i <= n,
                out@ == chunks_for(self.chunks@.subrange(0, i as int), version@),
            decreases n - i,
        {
            let ghost next = self.chunks@.subrange(0, i + 1);
            assert(next.drop_last() =~= self.chunks@.subrange(0, i as int));
            if str_eq(self.chunks[i].0.as_str(), version) {
                out.push(self.chunks[i].1.copied());
            }
            i += 1;
        }
        assert(self.chunks@.subrange(0, n as int) =~= self.chunks@);
        out
    }
}

impl SophonDiff {
    /// The size installed by updating from `version`: for every file, its
    /// size once per patch it has from that version; `None` when the sum
    /// exceeds a `u64`.
    pub fn patch_install_total(&self, version: &str) -> (r: Option<u64>)
        ensures
            r == checked_total_spec(patch_install_sizes(self.files@, version@)),
    {
        let n = self.files.len();
        let mut sizes: Vec<u64> = Vec::new();
        let mut i: usize = 0;
        while i < n
            invariant
                n == self.files@.len(),
                i <= n,
                sizes@ == patch_install_sizes(self.files@.subrange(0, i as int), version@),
            decreases n - i,
        {
            let ghost next = self.files@.subrange(0, i + 1);
            assert(next.drop_last() =~= self.files@.subrange(0, i as int));
            let f = &self.files[i];
            let c = f.chunks_for(version);
            let m = c.len();
            let mut k: usize = 0;
            let ghost start = sizes@;
            while k < m
                invariant
                    m == c@.len(),
                    k <= m,
                    sizes@ =~= start + Seq::new(k as nat, |j: int| f.size),
                decreases m - k,
            {
                sizes.push(f.size);
                k += 1;
            }
            i += 1;
        }
        assert(self.files@.subrange(0, n as int) =~= self.files@);
        checked_total(&sizes)
    }

    /// Every patch from `version`, file by file.
    pub fn all_chunks_for(&self, version: &str) -> (r: Vec<PatchChunk>)
        ensures
            r@ == all_chunks_for(self.files@, version@),
    {
        let n = self.files.len();
        let mut out: Vec<PatchChunk> = Vec::new();
        let mut i: usize = 0;
        while i < n
            invariant
                n == self.files@.len(),
                i <= n,
                out@ == all_chunks_for(self.files@.subrange(0, i as int), version@),
            decreases n - i,
        {
            let ghost next = self.files@.subrange(0, i + 1);
            assert(next.drop_last() =~= self.files@.subrange(0, i as int));
            let mut c = self.files[i].chunks_for(version);
            let ghost before = out@;
            out.append(&mut c);
            assert(out@ =~= before + chunks_for(self.files@[i as int].chunks@, version@));
            i += 1;
        }
        assert(self.files@.subrange(0, n as int) =~= self.files@);
        out
    }

    /// The size a preload from `version` downloads: each patch archive it
    /// names counted once; `None` when the sum exceeds a `u64`.
    pub fn preload_download_total(&self, version: &str) -> (r: Option<u64>)
        ensures
            r == checked_total_spec(distinct_patch_sizes(all_chunks_for(self.files@, version@))),
    {
        let all = self.all_chunks_for(version);
        let n = all.len();
        let mut sizes: Vec<u64> = Vec::new();
        let mut i: usize = 0;
        while i < n
            invariant
                n == all@.len(),
                i <= n,
                sizes@ == distinct_patch_sizes(all@.subrange(0, i as int)),
            decreases n - i,
        {
            let ghost next = all@.subrange(0, i + 1);
            assert(next.drop_last() =~= all@.subrange(0, i as int));
            let mut seen = false;
            let mut j: usize = 0;
            while j < i
                invariant
                    n == all@.len(),
                    i < n,
                    j <= i,
                    seen == exists|k: int| 0 <= k < j && #[trigger] all@[k].patch_name@ == all@[i as int].patch_name@,
                decreases i - j,
            {
                if str_eq(all[j].patch_name.as_str(), all[i].patch_name.as_str()) {
                    seen = true;
                }
                j += 1;
            }
            assert(seen == exists|k: int| 0 <= k < next.len() - 1 && #[trigger] next[k].patch_name@ == next.last().patch_name@) by {
                if seen {
                    let k = choose|k: int| 0 <= k < i && #[trigger] all@[k].patch_name@ == all@[i as int].patch_name@;
                    assert(next[k] == all@[k]);
                }
                if exists|k: int| 0 <= k < next.len() - 1 && #[trigger] next[k].patch_name@ == next.last().patch_name@ {
                    let k = choose|k: int| 0 <= k < next.len() - 1 && #[trigger] next[k].patch_name@ == next.last().patch_name@;
                    assert(all@[k] == next[k]);
                }
            }
            if !seen {
                sizes.push(all[i].patch_size);
            }
            i += 1;
        }
        assert(all@.subrange(0, n as int) =~= all@);
        checked_total(&sizes)
    }

    /// Names of the files that updating from `version` removes.
    pub fn purge_list(&self, version: &str) -> (r: Vec<String>)
        ensures
            r@ == purge_names(self.delete_files@, version@),
    {
        let n = self.delete_files.len();
        let mut out: Vec<String> = Vec::new();
        let mut i: usize = 0;
        while i < n
            invariant
                n == self.delete_files@.len(),
                i <= n,
                out@ == purge_names(self.delete_files@.subrange(0, i as int), version@),
            decreases n - i,
        {
            let ghost next = self.delete_files@.subrange(0, i + 1);
            assert(next.drop_last() =~= self.delete_files@.subrange(0, i as int));
            if str_eq(self.delete_files[i].0.as_str(), version) {
                let names = &self.delete_files[i].1;
                let m = names.len();
                let mut k: usize = 0;
                let ghost start = out@;
                while k < m
                    invariant
                        m == names@.len(),
                        k <= m,
                        out@ =~= start + names@.subrange(0, k as int),
                    decreases m - k,
                {
                    out.push(names[k].clone());
                    k += 1;
                }
                assert(names@.subrange(0, m as int) =~= names@);
            }
            i += 1;
        }
        assert(self.delete_files@.subrange(0, n as int) =~= self.delete_files@);
        out
    }
}

/// How one patch of a file is applied.
#[derive(Debug, Clone, Copy, PartialEq, Eq, Structural)]
pub enum PatchAction {
    /// The patch bytes are the new file: write them out.
    CopyData,
    /// The patch bytes are an HDiff patch of the file itself, which is
    /// recreated empty first.
    PatchSelf,
    /// The patch bytes are an HDiff patch of the named original file.
    PatchOriginal,
}

/// Whether bytes hold an HDiff patch (they begin with `HDIFF13`).
pub open spec fn is_hdiff_data(data: Seq<u8>) -> bool {
    data.len() >= 7 && data.subrange(0, 7) == seq![72u8, 68u8, 73u8, 70u8, 70u8, 49u8, 51u8]
}

/// Whether bytes hold an HDiff patch (they begin with `HDIFF13`).
pub fn is_hdiff(data: &[u8]) -> (r: bool)
    ensures
        r == is_hdiff_data(data@),
{
    if data.len() < 7 {
        return false;
    }
    let r = data[0] == 72u8 && data[1] == 68u8 && data[2] == 73u8 && data[3] == 70u8 && data[4] == 70u8
        && data[5] == 49u8 && data[6] == 51u8;
    assert(r == (data@.subrange(0, 7) =~= seq![72u8, 68u8, 73u8, 70u8, 70u8, 49u8, 51u8]));
    r
}

/// What is left of `archive` from the patch's offset on, cut to at most the
/// patch's length.
pub open spec fn taken_bytes(c: PatchChunk, archive: Seq<u8>) -> Seq<u8> {
    let n = archive.len() as int;
    let start = if c.patch_offset <= n { c.patch_offset as int } else { n };
    let end = if c.patch_offset + c.patch_length <= n { c.patch_offset + c.patch_length } else { n };
    archive.subrange(start, end)
}

impl PatchChunk {
    /// How the patch is applied, given its bytes `data`: a patch that names
    /// an original file patches that file; one that names none is copied as
    /// it is, unless its bytes are an HDiff patch, which then patches the
    /// file itself.
    pub fn action(&self, data: &[u8]) -> (r: PatchAction)
        ensures
            self.original_filename@.len() > 0 ==> r == PatchAction::PatchOriginal,
            self.original_filename@.len() == 0 ==> r == (if is_hdiff_data(data@) {
                PatchAction::PatchSelf
            } else {
                PatchAction::CopyData
            }),
    {
        if self.original_filename.as_str().unicode_len() > 0 {
            PatchAction::PatchOriginal
        } else if is_hdiff(data) {
            PatchAction::PatchSelf
        } else {
            PatchAction::CopyData
        }
    }

    /// The bytes of the patch inside the patch archive `archive`:
    /// `patch_length` bytes from `patch_offset`; `None` when the archive is
    /// too short to hold them.
    pub fn patch_data<'a>(&self, archive: &'a [u8]) -> (r: Option<&'a [u8]>)
        ensures
            self.patch_offset + self.patch_length <= archive@.len() ==> (r matches Some(d)
                && d@ == archive@.subrange(self.patch_offset as int, self.patch_offset + self.patch_length)),
            self.patch_offset + self.patch_length > archive@.len() ==> r is None,
    {
        let n = archive.len();
        if self.patch_offset > n as u64 || self.patch_length > n as u64 - self.patch_offset {
            None
        } else {
            let start = self.patch_offset as usize;
            let end = start + self.patch_length as usize;
            Some(slice_subrange(archive, start, end))
        }
    }

    /// The bytes taken from the patch archive `archive` for a patch of an
    /// original file: from `patch_offset` on, at most `patch_length` of
    /// them, as many as the archive still holds (none when the offset lies
    /// past its end).
    pub fn taken_data<'a>(&self, archive: &'a [u8]) -> (r: &'a [u8])
        ensures
            r@ == taken_bytes(*self, archive@),
    {
        let n = archive.len();
        if self.patch_offset >= n as u64 {
            slice_subrange(archive, n, n)
        } else {
            let start = self.patch_offset as usize;
            let end = if self.patch_length <= (n - start) as u64 {
                start + self.patch_length as usize
            } else {
                n
            };
            slice_subrange(archive, start, end)
        }
    }

    /// Name of the file the patch bytes are written to before patching:
    /// `{patch_md5}.hdiff`.
    pub fn diff_file_name(&self) -> (r: String)
        ensures
            r@ == self.patch_md5@ + ".hdiff"@,
    {
        let mut s = self.patch_md5.clone();
        s.append(".hdiff");
        s
    }
}

/// How many times a file that fails its check is assembled again.
pub const VALIDATION_RETRIES: usize = 3;

/// What is done after a check of an assembled file.
#[derive(Debug, Clone, Copy, PartialEq, Eq, Structural)]
pub enum ValidationStep {
    /// The file is good: its size counts as installed, `credit_download`
    /// bytes count as downloaded, its chunks are removed, and it is recorded
    /// as verified in this session when `mark_verified`.
    Accept { mark_verified: bool, credit_download: u64 },
    /// The file is deleted and assembled again from its chunks.
    Redownload,
    /// The file is left for a later repair.
    GiveUp,
}

impl SophonFile {
    /// The first check of an assembled file: it passes when this session
    /// already verified it, else when `contents` (`None` if unreadable) have
    /// the file's MD5 checksum.
    pub fn first_check(&self, already_verified: bool, contents: Option<&[u8]>) -> (r: bool)
        ensures
            r == (already_verified || match contents {
                Some(c) => chksum_md5_hex(c@) == ascii_lower(self.md5@),
                None => false,
            }),
    {
        already_verified || validate_checksum(contents, self.md5.as_str())
    }
}

/// The step after check number `retries` (0 for the first check, then one
/// per new assembly) of a file came out `valid`. Only the first check
/// records the file as verified (unless it already was) and counts its
/// compressed size as downloaded when nothing was downloaded for it in this
/// run; a failing file is assembled again until `VALIDATION_RETRIES` new
/// assemblies have failed too.
pub fn validation_step(retries: usize, valid: bool, already_verified: bool, downloaded_this_run: bool, compressed_size: u64) -> (r: ValidationStep)
    requires
        retries <= VALIDATION_RETRIES,
    ensures
        valid && retries == 0 ==> r == (ValidationStep::Accept {
            mark_verified: !already_verified,
            credit_download: if downloaded_this_run { 0 } else { compressed_size },
        }),
        valid && retries > 0 ==> r == (ValidationStep::Accept { mark_verified: false, credit_download: 0 }),
        !valid && retries < VALIDATION_RETRIES ==> r == ValidationStep::Redownload,
        !valid && retries == VALIDATION_RETRIES ==> r == ValidationStep::GiveUp,
{
    if valid {
        if retries == 0 {
            ValidationStep::Accept {
                mark_verified: !already_verified,
                credit_download: if downloaded_this_run { 0 } else { compressed_size },
            }
        } else {
            ValidationStep::Accept { mark_verified: false, credit_download: 0 }
        }
    } else if retries < VALIDATION_RETRIES {
        ValidationStep::Redownload
    } else {
        ValidationStep::GiveUp
    }
}

/// Where a chunk or patch archive is fetched: `{base}/{name}`.
pub fn chunk_url(base: &str, name: &str) -> (r: String)
    ensures
        r@ == base@ + "/"@ + name@,
{
    let mut u = String::from_str(base);
    u.append("/");
    u.append(name);
    u
}

} // verus!
