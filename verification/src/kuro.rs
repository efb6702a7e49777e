//! Kuro Games and Yostar resource indexes: their data, the totals they
//! announce, and where each resource is fetched from.

use vstd::prelude::*;
use crate::text::{parse_u64, parse_u64_spec, str_ends_with};
use crate::paths::ends_with_seq;
use crate::digest::{chksum_md5_hex, validate_checksum};
use crate::text::ascii_lower;
use crate::totals::{checked_total, checked_total_spec};

verus! {

/// One file of a Kuro resource index.
#[derive(Debug, Clone, PartialEq, Eq, Hash)]
pub struct KuroResource {
    pub dest: String,
    pub md5: String,
    pub sample_hash: Option<String>,
    pub size: u64,
    pub from_folder: Option<String>,
    pub chunk_infos: Option<Vec<KuroChunkInfos>>,
}

/// A byte range of a resource with its checksum.
#[derive(Debug, Clone, PartialEq, Eq, Hash)]
pub struct KuroChunkInfos {
    pub start: u64,
    pub end: u64,
    pub md5: String,
}

/// A patch or archive file and the resources it yields.
#[derive(Debug, Clone, PartialEq, Eq, Hash)]
pub struct KuroPatchEntry {
    pub dest: String,
    pub entries: Vec<KuroResource>,
}

/// A grouped patch and the files it reads and writes.
#[derive(Debug, Clone, PartialEq, Eq, Hash)]
pub struct KuroGroupInfos {
    pub dest: String,
    pub src_files: Vec<KuroResource>,
    pub dst_files: Vec<KuroResource>,
}

/// The resource index of a Kuro Games release.
#[derive(Debug, Clone, PartialEq, Eq, Hash)]
pub struct KuroIndex {
    pub resource: Vec<KuroResource>,
    pub delete_files: Option<Vec<String>>,
    pub patch_infos: Option<Vec<KuroPatchEntry>>,
    pub zip_infos: Option<Vec<KuroPatchEntry>>,
    pub group_resource: Option<Vec<KuroResource>>,
    pub group_infos: Option<Vec<KuroGroupInfos>>,
    pub apply_types: Option<Vec<String>>,
}

/// One file of a Yostar manifest: a path with a leading slash, a crc64
/// hash and a size written as text.
#[derive(Debug, Clone, PartialEq, Eq, Hash)]
pub struct YostarFile {
    pub path: String,
    pub hash: String,
    pub size: String,
}

/// A Yostar manifest.
#[derive(Debug, Clone, PartialEq, Eq, Hash)]
pub struct YostarIndex {
    pub file: Vec<YostarFile>,
}

/// The sizes of the resources, in order.
pub open spec fn resource_sizes(r: Seq<KuroResource>) -> Seq<u64> {
    r.map_values(|x: KuroResource| x.size)
}

/// Total size of the resources, or `None` when it exceeds a `u64`.
pub fn total_size(resources: &Vec<KuroResource>) -> (r: Option<u64>)
    ensures
        r == checked_total_spec(resource_sizes(resources@)),
{
    let n = resources.len();
    let mut sizes: Vec<u64> = Vec::new();
    let mut i: usize = 0;
    while i < n
        invariant
            n == resources@.len(),
            i <= n,
            sizes@ =~= resource_sizes(resources@.subrange(0, i as int)),
        decreases n - i,
    {
        sizes.push(resources[i].size);
        i += 1;
    }
    assert(resources@.subrange(0, n as int) =~= resources@);
    checked_total(&sizes)
}

impl KuroIndex {
    /// Total size of the resources the index lists (the progress total of a
    /// download, repair or preload), or `None` when it exceeds a `u64`.
    pub fn total_bytes(&self) -> (r: Option<u64>)
        ensures
            r == checked_total_spec(resource_sizes(self.resource@)),
    {
        total_size(&self.resource)
    }
}

impl KuroPatchEntry {
    /// Total size of the resources an archive or patch yields, or `None` when
    /// it exceeds a `u64`.
    pub fn entries_size(&self) -> (r: Option<u64>)
        ensures
            r == checked_total_spec(resource_sizes(self.entries@)),
    {
        total_size(&self.entries)
    }
}

impl KuroResource {
    /// Whether the copy of the resource on disk is good. With `is_fast` its
    /// length (`on_disk_len`, `None` when it is missing) must equal the
    /// resource's size; otherwise its contents (`None` when missing or
    /// unreadable) must pass the resource's MD5 checksum.
    pub fn check(&self, is_fast: bool, on_disk_len: Option<u64>, contents: Option<&[u8]>) -> (r: bool)
        ensures
            is_fast ==> r == (on_disk_len == Some(self.size)),
            !is_fast ==> r == (match contents {
                Some(c) => chksum_md5_hex(c@) == ascii_lower(self.md5@),
                None => false,
            }),
    {
        if is_fast {
            match on_disk_len {
                Some(l) => l == self.size,
                None => false,
            }
        } else {
            validate_checksum(contents, self.md5.as_str())
        }
    }
}

/// How many times a resource that fails its check is downloaded.
pub const RESOURCE_DOWNLOADS: usize = 3;

/// What is done for a resource after a check of its copy on disk.
#[derive(Debug, Clone, Copy, PartialEq, Eq, Structural)]
pub enum ResourceStep {
    /// The copy is good: the resource's size counts as done.
    Credit,
    /// The resource is downloaded (again).
    Download,
    /// The resource is left for a later repair.
    GiveUp,
}

/// The step after the check that followed `downloads` downloads of a
/// resource (0 for the check of the copy already present) came out `valid`.
pub fn resource_step(downloads: usize, valid: bool) -> (r: ResourceStep)
    requires
        downloads <= RESOURCE_DOWNLOADS,
    ensures
        valid ==> r == ResourceStep::Credit,
        !valid && downloads < RESOURCE_DOWNLOADS ==> r == ResourceStep::Download,
        !valid && downloads == RESOURCE_DOWNLOADS ==> r == ResourceStep::GiveUp,
{
    if valid {
        ResourceStep::Credit
    } else if downloads < RESOURCE_DOWNLOADS {
        ResourceStep::Download
    } else {
        ResourceStep::GiveUp
    }
}

/// A resource that a preload fetches from the resource folder: an archive or
/// a (grouped) diff.
pub open spec fn is_patch_resource(dest: Seq<char>) -> bool {
    ends_with_seq(dest, ".krzip"@) || ends_with_seq(dest, ".krdiff"@) || ends_with_seq(dest, ".krpdiff"@)
}

/// Archives (`.krzip`) and diffs (`.krdiff`, `.krpdiff`) are patch
/// resources, fetched from the resource folder; any other file is not.
pub proof fn law_patch_resources_by_suffix(dest: Seq<char>)
    ensures
        ends_with_seq(dest, ".krzip"@) ==> is_patch_resource(dest),
        ends_with_seq(dest, ".krdiff"@) ==> is_patch_resource(dest),
        ends_with_seq(dest, ".krpdiff"@) ==> is_patch_resource(dest),
        !ends_with_seq(dest, ".krzip"@) && !ends_with_seq(dest, ".krdiff"@) && !ends_with_seq(dest, ".krpdiff"@)
            ==> !is_patch_resource(dest),
{
}

/// Where a full download fetches resource `dest`: `{base_url}/{dest}`.
pub fn resource_url(base_url: &str, dest: &str) -> (r: String)
    ensures
        r@ == base_url@ + "/"@ + dest@,
{
    let mut u = String::from_str(base_url);
    u.append("/");
    u.append(dest);
    u
}

/// Where a patch or preload fetches resource `dest`: archives and diffs come
/// from `base_resources` (which ends with its own separator), every other
/// file from `{base_zip}/`.
pub fn preload_resource_url(base_resources: &str, base_zip: &str, dest: &str) -> (r: String)
    ensures
        is_patch_resource(dest@) ==> r@ == base_resources@ + dest@,
        !is_patch_resource(dest@) ==> r@ == base_zip@ + "/"@ + dest@,
        ends_with_seq(dest@, ".krzip"@) ==> r@ == base_resources@ + dest@,
        ends_with_seq(dest@, ".krdiff"@) ==> r@ == base_resources@ + dest@,
        ends_with_seq(dest@, ".krpdiff"@) ==> r@ == base_resources@ + dest@,
        !ends_with_seq(dest@, ".krzip"@) && !ends_with_seq(dest@, ".krdiff"@) && !ends_with_seq(dest@, ".krpdiff"@)
            ==> r@ == base_zip@ + "/"@ + dest@,
{
    if str_ends_with(dest, ".krzip") || str_ends_with(dest, ".krdiff") || str_ends_with(dest, ".krpdiff") {
        let mut u = String::from_str(base_resources);
        u.append(dest);
        u
    } else {
        let mut u = String::from_str(base_zip);
        u.append("/");
        u.append(dest);
        u
    }
}

/// `s` without the leading slashes (as `trim_start_matches('/')`).
pub open spec fn trim_leading_slashes(s: Seq<char>) -> Seq<char>
    decreases s.len(),
{
    if s.len() > 0 && s[0] == '/' {
        trim_leading_slashes(s.drop_first())
    } else {
        s
    }
}

/// The Kuro-shaped task for one Yostar manifest entry.
pub open spec fn yostar_task(f: YostarFile, r: KuroResource) -> bool {
    &&& r.dest@ == trim_leading_slashes(f.path@)
    &&& r.md5@ == "crc64:"@ + f.hash@
    &&& r.sample_hash is None
    &&& r.size == (match parse_u64_spec(f.size@) {
        Some(v) => v,
        None => 0,
    })
    &&& r.from_folder is None
    &&& r.chunk_infos is None
}

/// Removes every leading `/`.
pub fn trim_start_slashes(s: &str) -> (r: &str)
    ensures
        r@ == trim_leading_slashes(s@),
{
    let n = s.unicode_len();
    let mut i: usize = 0;
    assert(s@.subrange(0, n as int) =~= s@);
    while i < n && s.get_char(i) == '/'
        invariant
            n == s@.len(),
            i <= n,
            trim_leading_slashes(s@) == trim_leading_slashes(s@.subrange(i as int, n as int)),
        decreases n - i,
    {
        let ghost rest = s@.subrange(i as int, n as int);
        assert(rest.drop_first() =~= s@.subrange(i + 1, n as int));
        i += 1;
    }
    s.substring_char(i, n)
}

/// Turns a Yostar manifest into the task list the Kuro workers use: paths
/// lose their leading slashes, hashes are marked as crc64, and sizes that are
/// not numbers count as 0.
pub fn flatten_index(index: YostarIndex) -> (r: Vec<KuroResource>)
    ensures
        r@.len() == index.file@.len(),
        forall|i: int| 0 <= i < r@.len() ==> yostar_task(#[trigger] index.file@[i], r@[i]),
{
    let n = index.file.len();
    let mut out: Vec<KuroResource> = Vec::new();
    let mut i: usize = 0;
    while i < n
        invariant
            n == index.file@.len(),
            i <= n,
            out@.len() == i,
            forall|k: int| 0 <= k < i ==> yostar_task(#[trigger] index.file@[k], out@[k]),
        decreases n - i,
    {
        let f = &index.file[i];
        let mut md5 = String::from_str("crc64:");
        md5.append(f.hash.as_str());
        let size = match parse_u64(f.size.as_str()) {
            Some(v) => v,
            None => 0,
        };
        let task = KuroResource {
            dest: String::from_str(trim_start_slashes(f.path.as_str())),
            md5,
            sample_hash: None,
            size,
            from_folder: None,
            chunk_infos: None,
        };
        out.push(task);
        i += 1;
    }
    out
}

} // verus!
