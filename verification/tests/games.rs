use fischl::game::{job_of, work_layout, Game, Job};
use md5::Digest;
use fischl::kuro::{flatten_index, preload_resource_url, resource_step, resource_url, total_size, trim_start_slashes, KuroPatchEntry, KuroResource, ResourceStep, YostarFile, YostarIndex, RESOURCE_DOWNLOADS};
use fischl::progress::{
    credited_delta, download_phase, file_download_phase, patch_phase, present_bytes, shown_progress,
    PHASE_DOWNLOADING, PHASE_IDLE, PHASE_INSTALLING, PHASE_VALIDATING, PHASE_VERIFYING,
};
use fischl::sophon::{
    chunk_url, is_hdiff, validation_step, PatchAction, PatchChunk, PatchFile, SophonChunk, SophonDiff,
    SophonFile, SophonManifest, ValidationStep, DIRECTORY_TYPE,
};
use fischl::voice_locale::VoiceLocale;
use fischl::zipped::{
    delete_targets, diff_dir, staged_archive_valid, usable_patches, AttemptResult, BeyondPatchEntry,
    BeyondPatchFile, BeyondPatchIndex, DownloadAttempts, MAX_ATTEMPTS,
};

#[test]
fn voice_locales_round_trip() {
    assert_eq!(VoiceLocale::list(), vec![VoiceLocale::English, VoiceLocale::Japanese, VoiceLocale::Korean, VoiceLocale::Chinese]);
    for l in VoiceLocale::list() {
        assert_eq!(VoiceLocale::from_str(l.to_name()), Some(l));
        assert_eq!(VoiceLocale::from_str(l.to_code()), Some(l));
        assert_eq!(VoiceLocale::from_str(l.to_folder()), Some(l));
    }
    assert_eq!(VoiceLocale::English.to_name(), "English");
    assert_eq!(VoiceLocale::English.to_code(), "en-us");
    assert_eq!(VoiceLocale::English.to_folder(), "English(US)");
    assert_eq!(VoiceLocale::Chinese.to_code(), "zh-cn");
    assert_eq!(VoiceLocale::from_str("Chinese(PRC)"), Some(VoiceLocale::Chinese));
    assert_eq!(VoiceLocale::from_str("korean"), Some(VoiceLocale::Korean));
    assert_eq!(VoiceLocale::from_str("KOREAN"), None);
    assert_eq!(VoiceLocale::from_str(""), None);
}

fn res(dest: &str, size: u64) -> KuroResource {
    KuroResource { dest: dest.to_string(), md5: String::new(), sample_hash: None, size, from_folder: None, chunk_infos: None }
}

#[test]
fn kuro_totals_and_urls() {
    assert_eq!(total_size(&vec![res("a", 1), res("b", 2), res("c", 3)]), Some(6));
    assert_eq!(total_size(&vec![]), Some(0));
    assert_eq!(total_size(&vec![res("a", u64::MAX), res("b", 1)]), None);
    let entry = KuroPatchEntry { dest: "p.krpdiff".into(), entries: vec![res("x", 10), res("y", 5)] };
    assert_eq!(entry.entries_size(), Some(15));
    assert_eq!(resource_url("https://cdn/res", "Client/a.pak"), "https://cdn/res/Client/a.pak");
    assert_eq!(preload_resource_url("https://cdn/resources/", "https://cdn/zip", "x.krzip"), "https://cdn/resources/x.krzip");
    assert_eq!(preload_resource_url("https://cdn/resources/", "https://cdn/zip", "x.krpdiff"), "https://cdn/resources/x.krpdiff");
    assert_eq!(preload_resource_url("https://cdn/resources/", "https://cdn/zip", "Client/a.pak"), "https://cdn/zip/Client/a.pak");
}

#[test]
fn yostar_index_becomes_kuro_tasks() {
    assert_eq!(trim_start_slashes("///a/b"), "a/b");
    let index = YostarIndex {
        file: vec![
            YostarFile { path: "/Data/a.bin".into(), hash: "123456".into(), size: "42".into() },
            YostarFile { path: "b.bin".into(), hash: "ff".into(), size: "n/a".into() },
        ],
    };
    let tasks = flatten_index(index);
    assert_eq!(tasks.len(), 2);
    assert_eq!(tasks[0].dest, "Data/a.bin");
    assert_eq!(tasks[0].md5, "crc64:123456");
    assert_eq!(tasks[0].size, 42);
    assert_eq!(tasks[1].dest, "b.bin");
    assert_eq!(tasks[1].size, 0);
    assert!(tasks[1].sample_hash.is_none() && tasks[1].chunk_infos.is_none() && tasks[1].from_folder.is_none());
}

fn chunk(name: &str, size: u64) -> SophonChunk {
    SophonChunk { chunk_name: name.into(), chunk_md5: String::new(), chunk_on_file_offset: 0, chunk_size: size, chunk_decompressed_size: size * 2 }
}

fn sophon_file(name: &str, file_type: u32, size: u64, chunks: Vec<SophonChunk>) -> SophonFile {
    SophonFile { name: name.into(), chunks, file_type, size, md5: "d41d8cd98f00b204e9800998ecf8427e".into() }
}

#[test]
fn sophon_totals_skip_directories() {
    let m = SophonManifest {
        files: vec![
            sophon_file("a", 0, 100, vec![chunk("c1", 30), chunk("c2", 20)]),
            sophon_file("dir", DIRECTORY_TYPE, 999, vec![chunk("c3", 7)]),
            sophon_file("b", 0, 50, vec![chunk("c4", 40)]),
        ],
    };
    assert_eq!(m.install_total(), Some(150));
    assert_eq!(m.download_total(), Some(90));
    let per_file: u64 = m.files.iter().filter(|f| f.file_type != DIRECTORY_TYPE).map(|f| f.compressed_size().unwrap()).sum();
    assert_eq!(m.download_total(), Some(per_file));
    assert_eq!(m.files[0].compressed_size(), Some(50));
    assert!(m.files[0].needs_download(false, false));
    assert!(!m.files[0].needs_download(true, false));
    assert!(!m.files[0].needs_download(false, true));
    assert!(!m.files[1].needs_download(false, false));
    let huge = SophonManifest { files: vec![sophon_file("a", 0, u64::MAX, vec![]), sophon_file("b", 0, 1, vec![])] };
    assert_eq!(huge.install_total(), None);
}

fn patch(name: &str, size: u64, original: &str) -> PatchChunk {
    PatchChunk { patch_name: name.into(), patch_md5: format!("md5of{name}"), patch_size: size, patch_offset: 0, patch_length: size, original_filename: original.into() }
}

#[test]
fn sophon_patches_by_version() {
    let diff = SophonDiff {
        files: vec![
            PatchFile { name: "a".into(), size: 100, md5: String::new(), chunks: vec![("5.0".into(), patch("p1", 10, "")), ("4.8".into(), patch("p2", 20, ""))] },
            PatchFile { name: "b".into(), size: 200, md5: String::new(), chunks: vec![("5.0".into(), patch("p1", 10, "old_b"))] },
        ],
        delete_files: vec![("5.0".into(), vec!["gone1".into(), "gone2".into()]), ("4.8".into(), vec!["other".into()])],
    };
    assert_eq!(diff.files[0].chunks_for("5.0"), vec![patch("p1", 10, "")]);
    assert_eq!(diff.files[0].chunks_for("4.0"), Vec::<PatchChunk>::new());
    assert_eq!(diff.patch_install_total("5.0"), Some(300));
    assert_eq!(diff.patch_install_total("4.8"), Some(100));
    assert_eq!(diff.all_chunks_for("5.0"), vec![patch("p1", 10, ""), patch("p1", 10, "old_b")]);
    assert_eq!(diff.preload_download_total("5.0"), Some(10));
    assert_eq!(diff.preload_download_total("4.8"), Some(20));
    assert_eq!(diff.purge_list("5.0"), vec!["gone1".to_string(), "gone2".to_string()]);
    assert_eq!(diff.purge_list("1.0"), Vec::<String>::new());
}

#[test]
fn sophon_patch_actions() {
    assert!(is_hdiff(b"HDIFF13&rest"));
    assert!(!is_hdiff(b"HDIFF1"));
    assert!(!is_hdiff(b"PK\x03\x04"));
    assert_eq!(patch("p", 1, "orig").action(b"anything"), PatchAction::PatchOriginal);
    assert_eq!(patch("p", 1, "").action(b"HDIFF13xx"), PatchAction::PatchSelf);
    assert_eq!(patch("p", 1, "").action(b"plain data"), PatchAction::CopyData);
    assert_eq!(patch("p", 1, "").diff_file_name(), "md5ofp.hdiff");
    assert_eq!(chunk_url("https://cdn/chunks", "abc_123"), "https://cdn/chunks/abc_123");
}

#[test]
fn sophon_file_validation_retries() {
    let f = sophon_file("a", 0, 0, vec![]);
    assert!(f.first_check(false, Some(b"")));
    assert!(f.first_check(true, None));
    assert!(!f.first_check(false, Some(b"x")));
    assert_eq!(validation_step(0, true, false, false, 77), ValidationStep::Accept { mark_verified: true, credit_download: 77 });
    assert_eq!(validation_step(0, true, true, true, 77), ValidationStep::Accept { mark_verified: false, credit_download: 0 });
    assert_eq!(validation_step(2, true, false, false, 77), ValidationStep::Accept { mark_verified: false, credit_download: 0 });
    assert_eq!(validation_step(0, false, false, false, 77), ValidationStep::Redownload);
    assert_eq!(validation_step(2, false, false, false, 77), ValidationStep::Redownload);
    assert_eq!(validation_step(3, false, false, false, 77), ValidationStep::GiveUp);
}

#[test]
fn work_layouts() {
    let _marker = Game;
    assert_eq!(job_of(true, true), Job::Patch);
    assert_eq!(job_of(false, true), Job::Repair);
    assert_eq!(job_of(false, false), Job::Download);
    let l = work_layout(Job::Download, false);
    assert_eq!(l.work, vec!["downloading"]);
    assert_eq!(l.staging, vec!["downloading", "staging"]);
    assert_eq!(l.chunks, vec!["downloading", "chunk"]);
    assert_eq!(l.stale, vec![vec!["repairing".to_string()], vec!["patching".to_string()]]);
    let nested = work_layout(Job::Patch, true);
    assert_eq!(nested.stale, vec![vec!["patching".to_string(), "downloading".to_string()], vec!["patching".to_string(), "repairing".to_string()]]);
    let repair = work_layout(Job::Repair, false);
    assert_eq!(repair.stale, vec![vec!["downloading".to_string()], vec!["patching".to_string()]]);
}

#[test]
fn staged_archive_kept_only_when_known_good() {
    assert!(staged_archive_valid(true, "", None));
    assert!(staged_archive_valid(false, "D41D8CD98F00B204E9800998ECF8427E", Some(b"")));
    assert!(!staged_archive_valid(false, "d41d8cd98f00b204e9800998ecf8427e", Some(b"x")));
    assert!(!staged_archive_valid(false, "", Some(b"")));
}

#[test]
fn download_attempts_stop_after_three_failures() {
    let mut a = DownloadAttempts::new();
    let mut n = 0;
    while a.wants_attempt() {
        a.record(AttemptResult::Failed(format!("timeout {n}")), "d41d8cd98f00b204e9800998ecf8427e");
        n += 1;
    }
    assert_eq!(n, MAX_ATTEMPTS);
    assert!(!a.succeeded());
    let f = a.failure("game.zip").unwrap();
    assert_eq!(f.file_name, "game.zip");
    assert_eq!(f.chunk_name, "game.zip");
    assert_eq!(f.error, "timeout 2");
}

#[test]
fn download_attempts_report_checksum_mismatches() {
    let mut a = DownloadAttempts::new();
    a.record(AttemptResult::Downloaded(Some(b"bad".to_vec())), "d41d8cd98f00b204e9800998ecf8427e");
    assert!(a.wants_attempt());
    assert_eq!(a.failure("g.zip").unwrap().error, "Checksum mismatch on attempt 1");
    a.record(AttemptResult::Downloaded(Some(Vec::new())), "d41d8cd98f00b204e9800998ecf8427e");
    assert!(!a.wants_attempt());
    assert!(a.succeeded());
    assert!(a.failure("g.zip").is_none());
}

#[test]
fn download_attempts_without_hash_and_cancelled() {
    let mut a = DownloadAttempts::new();
    a.record(AttemptResult::Downloaded(None), "");
    assert!(a.succeeded());
    let mut c = DownloadAttempts::new();
    c.record(AttemptResult::Cancelled, "");
    assert!(!c.wants_attempt());
    assert!(!c.succeeded());
    assert_eq!(c.failure("g.zip").unwrap().error, "");
}

#[test]
fn patch_index_totals_and_patch_choice() {
    let index = BeyondPatchIndex {
        vfs_base_path: "Game_Data/VFS".into(),
        files: vec![
            BeyondPatchFile { name: "a.blc".into(), size: 10, patch: Some(vec![]) },
            BeyondPatchFile { name: "b.chk".into(), size: 99, patch: None },
            BeyondPatchFile {
                name: "c.chk".into(),
                size: 5,
                patch: Some(vec![
                    BeyondPatchEntry { base_file: "c.chk".into(), patch: "diff_1/c.hdiff".into() },
                    BeyondPatchEntry { base_file: "c.chk".into(), patch: "diff_2/c.hdiff".into() },
                    BeyondPatchEntry { base_file: "c.chk".into(), patch: "diff_10/c.hdiff".into() },
                ]),
            },
        ],
    };
    assert_eq!(index.patch_total(), Some(15));
    assert_eq!(index.patched_files(), vec![0, 2]);
    let entries = index.files[2].patch.clone().unwrap();
    assert_eq!(usable_patches(&entries, Some("diff_1")), vec![0]);
    assert_eq!(usable_patches(&entries, None), vec![0, 1, 2]);
    assert_eq!(usable_patches(&entries, Some("diff_3")), Vec::<usize>::new());
    let listing = vec![("readme.txt".to_string(), false), ("diff_file".to_string(), false), ("diff_2".to_string(), true), ("diff_1".to_string(), true)];
    assert_eq!(diff_dir(&listing), Some("diff_2".to_string()));
    assert_eq!(diff_dir(&vec![("files".to_string(), true)]), None);
}

#[test]
fn delete_list_lines() {
    assert_eq!(delete_targets("a.txt\r\n  \n b/c.dat \n\nlast"), vec!["a.txt", "b/c.dat", "last"]);
    assert_eq!(delete_targets(""), Vec::<String>::new());
}

#[test]
fn progress_amounts_and_phases() {
    assert_eq!(shown_progress(10, 5, 100), 15);
    assert_eq!(shown_progress(90, 20, 100), 100);
    assert_eq!(shown_progress(u64::MAX, 1, 7), 7);
    assert_eq!(download_phase(1, 1, 1), PHASE_DOWNLOADING);
    assert_eq!(download_phase(0, 1, 1), PHASE_VALIDATING);
    assert_eq!(download_phase(0, 0, 1), PHASE_VERIFYING);
    assert_eq!(download_phase(0, 0, 0), PHASE_IDLE);
    assert_eq!(patch_phase(0, 3, 1, 1), PHASE_INSTALLING);
    assert_eq!(file_download_phase(0, 2), PHASE_VALIDATING);
    assert_eq!(present_bytes(Some(50), 40), 40);
    assert_eq!(present_bytes(Some(30), 40), 30);
    assert_eq!(present_bytes(None, 40), 0);
    assert_eq!(credited_delta(10, 4), 6);
    assert_eq!(credited_delta(4, 10), 0);
}

#[test]
fn chunk_contents_are_checked_then_decompressed() {
    let packed = zstd::encode_all(&b"chunk payload"[..], 0).unwrap();
    let sum = format!("{:x}", md5::Md5::digest(&packed));
    let c = SophonChunk { chunk_md5: sum.to_uppercase(), ..chunk("c", packed.len() as u64) };
    assert_eq!(c.contents(Some(&packed)), Some(b"chunk payload".to_vec()));
    assert_eq!(c.contents(Some(b"garbage")), None);
    assert_eq!(c.contents(None), None);
    let raw = b"not a zstd frame".to_vec();
    let raw_sum = format!("{:x}", md5::Md5::digest(&raw));
    let r = SophonChunk { chunk_md5: raw_sum, ..chunk("r", raw.len() as u64) };
    assert_eq!(r.contents(Some(&raw)), None);
}

#[test]
fn kuro_resource_checks_and_retries() {
    let r = KuroResource { md5: "900150983CD24FB0D6963F7D28E17F72".into(), ..res("Client/a.pak", 3) };
    assert!(r.check(true, Some(3), None));
    assert!(!r.check(true, Some(4), Some(b"abc")));
    assert!(!r.check(true, None, None));
    assert!(r.check(false, None, Some(b"abc")));
    assert!(!r.check(false, Some(3), Some(b"abd")));
    assert!(!r.check(false, Some(3), None));
    assert_eq!(resource_step(0, true), ResourceStep::Credit);
    assert_eq!(resource_step(0, false), ResourceStep::Download);
    assert_eq!(resource_step(2, false), ResourceStep::Download);
    assert_eq!(resource_step(RESOURCE_DOWNLOADS, false), ResourceStep::GiveUp);
    assert_eq!(resource_step(RESOURCE_DOWNLOADS, true), ResourceStep::Credit);
}

#[test]
fn patch_bytes_are_cut_from_the_archive() {
    let archive = b"0123456789HDIFF13abc";
    let p = PatchChunk { patch_offset: 10, patch_length: 7, ..patch("p", 20, "") };
    assert_eq!(p.patch_data(archive), Some(&b"HDIFF13"[..]));
    assert_eq!(p.action(p.patch_data(archive).unwrap()), PatchAction::PatchSelf);
    let whole = PatchChunk { patch_offset: 0, patch_length: 20, ..patch("p", 20, "") };
    assert_eq!(whole.patch_data(archive), Some(&archive[..]));
    let past = PatchChunk { patch_offset: 15, patch_length: 6, ..patch("p", 20, "") };
    assert_eq!(past.patch_data(archive), None);
    let huge = PatchChunk { patch_offset: u64::MAX, patch_length: 2, ..patch("p", 20, "") };
    assert_eq!(huge.patch_data(archive), None);
}

#[test]
fn taken_bytes_stop_at_the_end_of_the_archive() {
    let archive = b"0123456789";
    let inside = PatchChunk { patch_offset: 2, patch_length: 3, ..patch("p", 10, "o") };
    assert_eq!(inside.taken_data(archive), &b"234"[..]);
    let short = PatchChunk { patch_offset: 7, patch_length: 10, ..patch("p", 10, "o") };
    assert_eq!(short.taken_data(archive), &b"789"[..]);
    let past = PatchChunk { patch_offset: 12, patch_length: 3, ..patch("p", 10, "o") };
    assert_eq!(past.taken_data(archive), &b""[..]);
    let huge = PatchChunk { patch_offset: 3, patch_length: u64::MAX, ..patch("p", 10, "o") };
    assert_eq!(huge.taken_data(archive), &b"3456789"[..]);
}

#[test]
fn staged_sophon_files_are_checked_by_size_or_checksum() {
    let f = sophon_file("a", 0, 3, vec![]);
    let f = SophonFile { md5: "900150983cd24fb0d6963f7d28e17f72".into(), ..f };
    assert!(f.staged_valid(true, Some(3), None));
    assert!(!f.staged_valid(true, Some(2), Some(b"abc")));
    assert!(!f.staged_valid(true, None, None));
    assert!(f.staged_valid(false, None, Some(b"abc")));
    assert!(!f.staged_valid(false, Some(3), Some(b"abd")));
    assert!(f.needs_download(false, f.staged_valid(false, None, Some(b"abd"))));
}
