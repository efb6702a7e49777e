use fischl::archive::{
    archive_kind, extraction_order, is_readonly, permission_bits, seven_zip_unix_mode,
    seven_zip_windows_attributes, should_report, total_entry_size, ArchiveKind, ExtractLayout, REPORT_EVERY,
};
use fischl::codeberg::{first_asset_url, Asset as CodebergAsset, Root2};
use fischl::extras::{raw_entry, ttl_manifest_url, DownloadMode, ManifestFile, ManifestPackage, RawEntry, TTLManifest};
use fischl::github::{github_release_url, Asset, GithubRelease};
use fischl::steamrt::{checksum_for_arch, steamrt_archive_name, steamrt_code, steamrt_url, steamrt_version_url, Arch};
use fischl::system::{available_space, byte_unit, hpatchz_succeeded, is_process_running, is_same_disk, process_matches, ByteUnit, DiskInfo};

fn parts(p: &[&str]) -> Vec<String> {
    p.iter().map(|s| s.to_string()).collect()
}

fn disk(mount: &[&str], len: usize, available: u64) -> DiskInfo {
    DiskInfo { mount_components: parts(mount), mount_len: len, available }
}

#[test]
fn the_deepest_mount_point_holds_a_path() {
    let disks = vec![disk(&["/"], 1, 100), disk(&["/", "home"], 5, 200), disk(&["/", "home", "games"], 11, 300), disk(&["/", "mnt"], 4, 400)];
    assert_eq!(available_space(&parts(&["/", "home", "games", "gi"]), &disks), Some(300));
    assert_eq!(available_space(&parts(&["/", "home", "user"]), &disks), Some(200));
    assert_eq!(available_space(&parts(&["/", "var"]), &disks), Some(100));
    assert_eq!(available_space(&parts(&["C:", "x"]), &disks), None);
    assert!(is_same_disk(&parts(&["/", "mnt", "a"]), &parts(&["/", "mnt", "b"]), &disks));
    assert!(is_same_disk(&parts(&["/", "home", "a"]), &parts(&["/", "mnt", "b"]), &disks));
    assert!(!is_same_disk(&parts(&["/", "a"]), &parts(&["D:", "b"]), &disks));
    let ties = vec![disk(&["/", "a"], 2, 1), disk(&["/", "a"], 2, 2)];
    assert_eq!(available_space(&parts(&["/", "a", "f"]), &ties), Some(1));
}

#[test]
fn process_names_are_compared_by_stem() {
    assert!(process_matches("GenshinImpact.exe", "GenshinImpact.exe"));
    assert!(process_matches("Genshin.exe", "GenshinImpact"));
    assert!(!process_matches("StarRail.exe", "GenshinImpact.exe"));
    let running = vec!["systemd".to_string(), "ZenlessZoneZero.exe".to_string()];
    assert!(is_process_running("ZenlessZoneZero.exe", &running));
    assert!(!is_process_running("Wuthering.exe", &running));
    assert!(!is_process_running("a", &Vec::new()));
}

#[test]
fn hpatchz_output() {
    assert!(hpatchz_succeeded("HDiffPatch v4.6.3\n  patch ok!\n"));
    assert!(!hpatchz_succeeded("error: patch failed"));
}

#[test]
fn size_units() {
    assert_eq!(byte_unit(1000), ByteUnit::Bytes);
    assert_eq!(byte_unit(1001), ByteUnit::Kilobytes);
    assert_eq!(byte_unit(1_000_001), ByteUnit::Megabytes);
    assert_eq!(byte_unit(1_000_000_001), ByteUnit::Gigabytes);
    assert_eq!(ByteUnit::Megabytes.divisor(), 1_000_000);
    assert_eq!(ByteUnit::Kilobytes.label(), "KB");
    assert_eq!(ByteUnit::Bytes.divisor(), 1);
}

#[test]
fn archive_kinds() {
    assert_eq!(archive_kind("a.zip"), ArchiveKind::Zip);
    assert_eq!(archive_kind("a.krzip"), ArchiveKind::Zip);
    assert_eq!(archive_kind("/x/a.tar.gz"), ArchiveKind::TarGz);
    assert_eq!(archive_kind("a.tar.xz"), ArchiveKind::TarXz);
    assert_eq!(archive_kind("a.7z"), ArchiveKind::SevenZip);
    assert_eq!(archive_kind("a.rar"), ArchiveKind::Unsupported);
}

#[test]
fn stripping_the_leading_directory() {
    let mut l = ExtractLayout::new(true);
    assert_eq!(l.place(&parts(&["dxvk-2.3"])), None);
    assert_eq!(l.place(&parts(&["dxvk-2.3", "x64", "d3d11.dll"])), Some(parts(&["x64", "d3d11.dll"])));
    assert_eq!(l.place(&parts(&["other", "file"])), None);
    let mut keep = ExtractLayout::new(false);
    assert_eq!(keep.place(&parts(&["a", "b"])), Some(parts(&["a", "b"])));
}

#[test]
fn entry_attributes_and_reports() {
    assert_eq!(seven_zip_unix_mode(Some(0x81ED_0020)), Some(0o755));
    assert_eq!(seven_zip_unix_mode(Some(0x0000_0020)), None);
    assert_eq!(seven_zip_unix_mode(None), None);
    assert_eq!(seven_zip_windows_attributes(Some(0x8000_0001)), Some(1));
    assert_eq!(seven_zip_windows_attributes(Some(0x21)), Some(0x21));
    assert_eq!(seven_zip_windows_attributes(Some(0x8000_0000)), None);
    assert!(is_readonly(0x21));
    assert!(!is_readonly(0x20));
    assert_eq!(permission_bits(0o100755), 0o755);
    assert!(should_report(REPORT_EVERY, 0));
    assert!(!should_report(REPORT_EVERY - 1, 0));
    assert!(!should_report(0, 10));
    assert_eq!(total_entry_size(&vec![1, 2, 3]), Some(6));
    assert_eq!(total_entry_size(&vec![u64::MAX, 1]), None);
}

#[test]
fn largest_entries_are_extracted_first() {
    let sizes = vec![5u64, 100, 7, 100, 0];
    let order = extraction_order(&sizes);
    let mut seen = order.clone();
    seen.sort();
    assert_eq!(seen, vec![0, 1, 2, 3, 4]);
    for w in order.windows(2) {
        assert!(sizes[w[0]] >= sizes[w[1]]);
    }
    assert_eq!(order[2], 2);
    assert_eq!(extraction_order(&Vec::new()), Vec::<usize>::new());
}

#[test]
fn steam_runtime_names_and_checksums() {
    assert_eq!(steamrt_code("steamrt3"), Some("sniper"));
    assert_eq!(steamrt_code("steamrt4"), Some("4"));
    assert_eq!(steamrt_code("steamrt2"), None);
    assert_eq!(steamrt_archive_name("steamrt3", Arch::X86_64), Some("SteamLinuxRuntime_sniper.tar.xz".to_string()));
    assert_eq!(steamrt_archive_name("steamrt4", Arch::Aarch64), Some("SteamLinuxRuntime_4-arm64.tar.xz".to_string()));
    assert_eq!(steamrt_archive_name("steamrt4", Arch::Other), None);
    assert_eq!(
        steamrt_url("steamrt3", "latest-public-beta", "SHA256SUMS"),
        "https://repo.steampowered.com/steamrt3/images/latest-public-beta/SHA256SUMS"
    );
    assert_eq!(steamrt_version_url("steamrt3", ""), None);
    assert_eq!(
        steamrt_version_url("steamrt3", "latest"),
        Some("https://repo.steampowered.com/steamrt3/images/latest/VERSION.txt".to_string())
    );
    let x = "a".repeat(64);
    let arm = "B".repeat(64);
    let sums = format!(
        "nothing here\n{short} *SteamLinuxRuntime_sniper.tar.xz\n {arm} *SteamLinuxRuntime_sniper-arm64.tar.xz\n{x} *SteamLinuxRuntime_sniper.tar.xz \n",
        short = "abc"
    );
    assert_eq!(checksum_for_arch(&sums, Arch::X86_64), Some(x));
    assert_eq!(checksum_for_arch(&sums, Arch::Aarch64), Some(arm));
    assert_eq!(checksum_for_arch(&sums, Arch::Other), None);
    assert_eq!(checksum_for_arch(&format!("{} *file.tar.gz", "c".repeat(64)), Arch::X86_64), None);
}

#[test]
fn release_urls() {
    assert_eq!(github_release_url("SpectrumQT/XXMI-Libs-Package"), Some("https://api.github.com/repos/SpectrumQT/XXMI-Libs-Package/releases/latest".to_string()));
    assert_eq!(github_release_url(""), None);
    let rel = GithubRelease { assets: vec![Asset { browser_download_url: "https://gh/dl/a.zip".into(), ..Default::default() }], ..Default::default() };
    assert_eq!(rel.first_asset_url(), "https://gh/dl/a.zip");
    let cb = vec![Root2 { assets: vec![CodebergAsset { browser_download_url: "https://cb/dl/b.exe".into(), ..Default::default() }], ..Default::default() }];
    assert_eq!(first_asset_url(&cb), "https://cb/dl/b.exe");
    assert_eq!(ttl_manifest_url("jadeite"), Some("https://dl-public.twintaillauncher.app/launcher_app/manifests/jadeite.json".to_string()));
    assert_eq!(ttl_manifest_url(""), None);
}

fn package(name: &str, mode: &str) -> ManifestPackage {
    ManifestPackage {
        git_url: "https://git/x.zip".into(),
        version: "1.2.3".into(),
        zip_sha256: String::new(),
        size: 0,
        package_name: name.into(),
        raw_url: "https://raw/base//".into(),
        default_download_mode: mode.into(),
        file_list: vec![],
    }
}

#[test]
fn package_selection() {
    let m = TTLManifest {
        retcode: 0,
        message: String::new(),
        data: Some(ManifestFile { packages: vec![package("FPS-Unlocker", "DOWNLOAD_MODE_RAW"), package("Jadeite-Main", "DOWNLOAD_MODE_FILE"), package("jadeite-old", "x")] }),
    };
    assert_eq!(m.select_package("jadeite").map(|p| p.package_name.clone()), Some("Jadeite-Main".to_string()));
    assert_eq!(m.select_package("fps").map(|p| p.package_name.clone()), Some("FPS-Unlocker".to_string()));
    assert!(m.select_package("xxmi").is_none());
    let failed = TTLManifest { retcode: -1, ..m.clone() };
    assert!(failed.select_package("jadeite").is_none());
    let empty = TTLManifest { retcode: 0, message: String::new(), data: None };
    assert!(empty.select_package("jadeite").is_none());
    assert_eq!(package("a", "DOWNLOAD_MODE_FILE").download_mode(), DownloadMode::File);
    assert_eq!(package("a", "DOWNLOAD_MODE_RAW").download_mode(), DownloadMode::Raw);
    assert_eq!(package("a", "download_mode_raw").download_mode(), DownloadMode::Unknown);
    assert_eq!(package("a", "").version_record("fps_unlock"), "FPS_UNLOCK=1.2.3");
}

#[test]
fn raw_package_entries() {
    assert_eq!(raw_entry("https://raw/base//", "keqing", true, "bin/"), RawEntry::Directory(parts(&["keqing", "bin"])));
    assert_eq!(raw_entry("https://raw/base//", "keqing", false, "dir//"), RawEntry::Directory(parts(&["dir"])));
    assert_eq!(
        raw_entry("https://raw/base//", "keqing", true, "bin/tool.exe"),
        RawEntry::File(parts(&["keqing", "bin/tool.exe"]), "https://raw/base/bin/tool.exe".to_string())
    );
}
