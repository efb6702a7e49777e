//! Extra packages of the launcher: their manifests, the URLs they are
//! fetched from, and the choices made on them. Fetching and parsing are done
//! by the caller.

use vstd::prelude::*;
use crate::text::{
    ascii_lower, ascii_upper, contains_seq, str_contains, str_eq, str_ends_with,
    to_ascii_lowercase, to_ascii_uppercase, trim_end_char, trim_end_matches_char,
};
use crate::paths::ends_with_seq;

verus! {

/// A launcher package manifest.
#[derive(Debug, Clone, PartialEq, Eq, Hash)]
pub struct TTLManifest {
    pub retcode: i32,
    pub message: String,
    pub data: Option<ManifestFile>,
}

/// The packages of a launcher package manifest.
#[derive(Debug, Clone, PartialEq, Eq, Hash)]
pub struct ManifestFile {
    pub packages: Vec<ManifestPackage>,
}

/// One package of a launcher package manifest.
#[derive(Debug, Clone, PartialEq, Eq, Hash)]
pub struct ManifestPackage {
    pub git_url: String,
    pub version: String,
    pub zip_sha256: String,
    pub size: u64,
    pub package_name: String,
    pub raw_url: String,
    pub default_download_mode: String,
    pub file_list: Vec<String>,
}

/// The URL of a launcher package manifest, none for an empty name.
pub fn ttl_manifest_url(package: &str) -> (r: Option<String>)
    ensures
        package@.len() == 0 ==> r is None,
        package@.len() > 0 ==> (r matches Some(u)
            && u@ == "https://dl-public.twintaillauncher.app/launcher_app/manifests/"@ + package@ + ".json"@),
{
    if package.unicode_len() == 0 {
        None
    } else {
        let mut u = String::from_str("https://dl-public.twintaillauncher.app/launcher_app/manifests/");
        u.append(package);
        u.append(".json");
        Some(u)
    }
}

/// How a launcher package is delivered.
#[derive(Debug, Clone, Copy, PartialEq, Eq, Structural)]
pub enum DownloadMode {
    /// One archive at the package's `git_url`.
    File,
    /// The files of its file list below its `raw_url`.
    Raw,
    /// A mode that is not supported: nothing is installed.
    Unknown,
}

/// The delivery a mode name asks for.
pub open spec fn mode_of(name: Seq<char>) -> DownloadMode {
    if name == "DOWNLOAD_MODE_FILE"@ {
        DownloadMode::File
    } else if name == "DOWNLOAD_MODE_RAW"@ {
        DownloadMode::Raw
    } else {
        DownloadMode::Unknown
    }
}

/// The first package whose lowercased name holds `package_type`, in a
/// manifest whose return code is 0 and that carries data.
pub open spec fn selected_package(m: TTLManifest, package_type: Seq<char>) -> Option<int> {
    if m.retcode != 0 {
        None
    } else {
        match m.data {
            Some(d) => first_matching(d.packages@, package_type, 0),
            None => None,
        }
    }
}

/// The first index from `from` on of a package whose lowercased name holds `t`.
pub open spec fn first_matching(p: Seq<ManifestPackage>, t: Seq<char>, from: int) -> Option<int>
    decreases p.len() - from,
{
    if from < 0 || from >= p.len() {
        None
    } else if contains_seq(ascii_lower(p[from].package_name@), t) {
        Some(from)
    } else {
        first_matching(p, t, from + 1)
    }
}

/// A package found from `from` on is the first from there whose lowercased
/// name holds `t`; none is found exactly when no such package follows.
proof fn lemma_first_matching(p: Seq<ManifestPackage>, t: Seq<char>, from: int)
    requires
        0 <= from <= p.len(),
    ensures
        match first_matching(p, t, from) {
            Some(i) => from <= i < p.len() && contains_seq(ascii_lower(p[i].package_name@), t)
                && forall|j: int| from <= j < i ==> !contains_seq(ascii_lower(#[trigger] p[j].package_name@), t),
            None => forall|j: int| from <= j < p.len() ==> !contains_seq(ascii_lower(#[trigger] p[j].package_name@), t),
        },
    decreases p.len() - from,
{
    if from < p.len() && !contains_seq(ascii_lower(p[from].package_name@), t) {
        lemma_first_matching(p, t, from + 1);
    }
}

/// The package chosen for a type is the first whose lowercased name holds
/// the type, and none is chosen only when the manifest reports an error,
/// carries no data, or lists no such package.
pub proof fn law_selected_package_is_first(m: TTLManifest, t: Seq<char>)
    ensures
        match selected_package(m, t) {
            Some(i) => m.retcode == 0 && (m.data matches Some(d) && 0 <= i < d.packages@.len()
                && contains_seq(ascii_lower(d.packages@[i].package_name@), t)
                && forall|j: int| 0 <= j < i ==> !contains_seq(ascii_lower(#[trigger] d.packages@[j].package_name@), t)),
            None => m.retcode != 0 || m.data is None || (m.data matches Some(d)
                && forall|j: int| 0 <= j < d.packages@.len() ==> !contains_seq(ascii_lower(#[trigger] d.packages@[j].package_name@), t)),
        },
{
    if let Some(d) = m.data {
        lemma_first_matching(d.packages@, t, 0);
    }
}

impl TTLManifest {
    /// The package of type `package_type` to install: the first whose
    /// lowercased name holds it; none when the manifest reports an error or
    /// carries no data.
    pub fn select_package(&self, package_type: &str) -> (r: Option<&ManifestPackage>)
        ensures
            match selected_package(*self, package_type@) {
                Some(i) => r matches Some(p) && self.data matches Some(d) && *p == d.packages@[i],
                None => r is None,
            },
    {
        if self.retcode != 0 {
            return None;
        }
        match &self.data {
            None => None,
            Some(d) => {
                let n = d.packages.len();
                let mut i: usize = 0;
                while i < n
                    invariant
                        n == d.packages@.len(),
                        i <= n,
                        self.retcode == 0,
                        self.data == Some(*d),
                        first_matching(d.packages@, package_type@, 0) == first_matching(d.packages@, package_type@, i as int),
                    decreases n - i,
                {
                    let lowered = to_ascii_lowercase(d.packages[i].package_name.as_str());
                    if str_contains(lowered.as_str(), package_type) {
                        assert(first_matching(d.packages@, package_type@, i as int) == Some(i as int));
                        return Some(&d.packages[i]);
                    }
                    i += 1;
                }
                None
            },
        }
    }
}

impl ManifestPackage {
    /// How the package is delivered.
    pub fn download_mode(&self) -> (r: DownloadMode)
        ensures
            r == mode_of(self.default_download_mode@),
    {
        if str_eq(self.default_download_mode.as_str(), "DOWNLOAD_MODE_FILE") {
            DownloadMode::File
        } else if str_eq(self.default_download_mode.as_str(), "DOWNLOAD_MODE_RAW") {
            DownloadMode::Raw
        } else {
            DownloadMode::Unknown
        }
    }

    /// The text of the `VERSION.txt` written next to an installed package:
    /// `{PACKAGE_ID}={version}`, the id in ASCII uppercase.
    pub fn version_record(&self, package_id: &str) -> (r: String)
        ensures
            r@ == ascii_upper(package_id@) + "="@ + self.version@,
    {
        let mut s = to_ascii_uppercase(package_id);
        s.append("=");
        s.append(self.version.as_str());
        s
    }
}

/// Where one entry of a raw package's file list goes.
#[derive(Debug, Clone, PartialEq, Eq)]
pub enum RawEntry {
    /// A directory to create, at this path below the destination.
    Directory(Vec<String>),
    /// A file to download from the URL to this path below the destination.
    File(Vec<String>, String),
}

/// The path below the destination of a raw entry: under a folder named after
/// the package type when `append_package`, then the entry itself.
pub open spec fn raw_target(package_type: Seq<char>, append_package: bool, entry: Seq<char>) -> Seq<Seq<char>> {
    if append_package {
        seq![package_type, entry]
    } else {
        seq![entry]
    }
}

fn target_path(package_type: &str, append_package: bool, entry: &str) -> (r: Vec<String>)
    ensures
        r@.map_values(|s: String| s@) == raw_target(package_type@, append_package, entry@),
{
    let mut v: Vec<String> = Vec::new();
    if append_package {
        v.push(String::from_str(package_type));
    }
    v.push(String::from_str(entry));
    assert(v@.map_values(|s: String| s@) =~= raw_target(package_type@, append_package, entry@));
    v
}

/// What an entry of a raw package's file list asks for: an entry ending in
/// `/` is a directory (named without its trailing slashes); any other is a
/// file fetched from `{raw_url without trailing slashes}/{entry}`.
pub fn raw_entry(raw_url: &str, package_type: &str, append_package: bool, entry: &str) -> (r: RawEntry)
    ensures
        ends_with_seq(entry@, "/"@) ==> (r matches RawEntry::Directory(p)
            && p@.map_values(|s: String| s@) == raw_target(package_type@, append_package, trim_end_char(entry@, '/'))),
        !ends_with_seq(entry@, "/"@) ==> (r matches RawEntry::File(p, url)
            && p@.map_values(|s: String| s@) == raw_target(package_type@, append_package, entry@)
            && url@ == trim_end_char(raw_url@, '/') + "/"@ + entry@),
{
    if str_ends_with(entry, "/") {
        RawEntry::Directory(target_path(package_type, append_package, trim_end_matches_char(entry, '/')))
    } else {
        let mut url = String::from_str(trim_end_matches_char(raw_url, '/'));
        url.append("/");
        url.append(entry);
        RawEntry::File(target_path(package_type, append_package, entry), url)
    }
}

} // verus!
