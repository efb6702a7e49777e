use fischl::digest::{md5_checksum_matches, sha256_checksum_matches, to_hex_lower, validate_checksum};
use fischl::downloader::{range_header, range_is_complete, ChunkWrite, Downloader, DownloadingError, ResumeDecision, DEFAULT_CHUNK_SIZE};
use fischl::integrity::{audio_list_name, game_list_name, integrity_list_url, kuro_integrity_files, IntegrityFile, RepairStep, Repairer, VerifyMode};
use fischl::kuro::{KuroIndex, KuroResource};
use fischl::token::{token_from_seed, url_safe_token};

fn downloader(uri: &str, length: Option<&str>) -> Downloader {
    Downloader::from_head(uri, length)
}

#[test]
fn filename_follows_the_documented_examples() {
    assert_eq!(downloader("https://example.com/example.zip", None).get_filename(), "example.zip");
    assert_eq!(downloader("https://example.com", None).get_filename(), "index.html");
    assert_eq!(downloader("https://example.com/", None).get_filename(), "index.html");
    assert_eq!(downloader("https://host/dir\\file.7z", None).get_filename(), "file.7z");
    assert_eq!(downloader("no-separator", None).get_filename(), "index.html");
}

#[test]
fn defaults_and_builders() {
    let d = downloader("https://host/a.zip", Some("1234"));
    assert_eq!(d.length(), Some(1234));
    assert_eq!(d.uri(), "https://host/a.zip");
    assert_eq!(d.chunk_size, DEFAULT_CHUNK_SIZE);
    assert_eq!(DEFAULT_CHUNK_SIZE, 128 * 1024);
    assert!(d.continue_downloading);
    assert!(d.check_free_space);
    let d = d.with_chunk_size(10).with_continue_downloading(false).with_free_space_check(false);
    assert_eq!(d.chunk_size, 10);
    assert!(!d.continue_downloading);
    assert!(!d.check_free_space);
    assert_eq!(d.length(), Some(1234));
    assert_eq!(downloader("https://host/a.zip", None).length(), None);
}

#[test]
fn resuming_a_present_file() {
    let d = downloader("https://host/a.zip", Some("100"));
    assert_eq!(d.resume_decision(40), ResumeDecision::Resume(40));
    assert_eq!(d.resume_decision(100), ResumeDecision::Complete);
    assert_eq!(d.resume_decision(150), ResumeDecision::Truncate(100));
    let unknown = downloader("https://host/a.zip", None);
    assert_eq!(unknown.resume_decision(150), ResumeDecision::Resume(150));
}

#[test]
fn free_space_errors() {
    let d = downloader("https://host/a.zip", Some("1000"));
    assert_eq!(d.free_space_check("/games/a.zip", None, 0), Err(DownloadingError::PathNotMounted("/games/a.zip".to_string())));
    assert_eq!(
        d.free_space_check("/games/a.zip", Some(500), 100),
        Err(DownloadingError::NoSpaceAvailable("/games/a.zip".to_string(), 900, 500))
    );
    assert_eq!(d.free_space_check("/games/a.zip", Some(900), 100), Ok(()));
    assert_eq!(d.free_space_check("/games/a.zip", Some(0), 2000), Ok(()));
    let unchecked = downloader("https://host/a.zip", Some("1000")).with_free_space_check(false);
    assert_eq!(unchecked.free_space_check("/games/a.zip", None, 0), Ok(()));
    let unknown = downloader("https://host/a.zip", None);
    assert_eq!(unknown.free_space_check("/games/a.zip", Some(0), 0), Ok(()));
}

#[test]
fn chunk_plan_writes_whole_chunks_then_the_rest() {
    let d = downloader("https://host/a.zip", Some("260")).with_chunk_size(100);
    let plan = d.chunk_plan(10, 250);
    assert_eq!(
        plan,
        vec![
            ChunkWrite { start: 0, end: 100, current: 110, total: 260 },
            ChunkWrite { start: 100, end: 200, current: 210, total: 260 },
            ChunkWrite { start: 200, end: 250, current: 260, total: 260 },
        ]
    );
    let unknown = downloader("https://host/a.zip", None).with_chunk_size(100);
    assert_eq!(
        unknown.chunk_plan(0, 200),
        vec![
            ChunkWrite { start: 0, end: 100, current: 100, total: 100 },
            ChunkWrite { start: 100, end: 200, current: 200, total: 200 },
        ]
    );
    assert_eq!(unknown.chunk_plan(0, 0), Vec::<ChunkWrite>::new());
    let zero = downloader("https://host/a.zip", None).with_chunk_size(0);
    assert_eq!(zero.chunk_plan(5, 3), vec![ChunkWrite { start: 0, end: 3, current: 8, total: 8 }]);
}

#[test]
fn range_headers() {
    assert_eq!(range_header(0), "bytes=0-");
    assert_eq!(range_header(10611646759), "bytes=10611646759-");
    assert!(range_is_complete("bytes */10611646760"));
    assert!(!range_is_complete("bytes 10611646759-10611646759/10611646760"));
    let d = downloader("https://host/a.zip", Some("77"));
    assert_eq!(d.finished_report(5), (77, 77));
    assert_eq!(downloader("https://host/a.zip", None).finished_report(5), (5, 5));
}

#[test]
fn digests_of_known_inputs() {
    assert_eq!(to_hex_lower(&[0x00, 0x0f, 0xab, 0xff]), "000fabff");
    assert!(md5_checksum_matches(b"", "d41d8cd98f00b204e9800998ecf8427e"));
    assert!(md5_checksum_matches(b"abc", "900150983CD24FB0D6963F7D28E17F72"));
    assert!(!md5_checksum_matches(b"abd", "900150983cd24fb0d6963f7d28e17f72"));
    assert!(sha256_checksum_matches(b"abc", "ba7816bf8f01cfea414140de5dae2223b00361a396177a9cb410ff61f20015ad"));
    assert!(!sha256_checksum_matches(b"abc", "BA7816BF8F01CFEA414140DE5DAE2223B00361A396177A9CB410FF61F20015AD"));
    assert!(validate_checksum(Some(b"".as_slice()), "D41D8CD98F00B204E9800998ECF8427E"));
    assert!(validate_checksum(Some(b"abc".as_slice()), "900150983cd24fb0d6963f7d28e17f72"));
    assert!(!validate_checksum(Some(b"abc".as_slice()), "d41d8cd98f00b204e9800998ecf8427e"));
    assert!(!validate_checksum(None, "d41d8cd98f00b204e9800998ecf8427e"));
}

fn integrity(path: &str, md5: &str, size: u64) -> IntegrityFile {
    IntegrityFile { path: path.to_string(), md5: md5.to_string(), size, base_url: "https://res/list".to_string() }
}

#[test]
fn integrity_checks() {
    let f = integrity("UnityPlayer.dll", "900150983CD24FB0D6963F7D28E17F72", 3);
    assert!(f.verify(Some(3), Some(b"abc")));
    assert!(!f.verify(Some(4), Some(b"abc")));
    assert!(!f.verify(Some(3), Some(b"abd")));
    assert!(!f.verify(None, Some(b"abc")));
    assert!(!f.verify(Some(3), None));
    assert!(f.fast_verify(Some(3)));
    assert!(!f.fast_verify(Some(2)));
    assert!(!f.fast_verify(None));
    assert_eq!(f.repair_url(), "https://res/list/UnityPlayer.dll");
}

#[test]
fn repair_downloads_the_whole_file_again() {
    let f = integrity("Data/a.pck", "x", 3);
    let d = f.repair(Some("42"));
    assert_eq!(d.uri(), "https://res/list/Data/a.pck");
    assert_eq!(d.length(), Some(42));
    assert!(!d.continue_downloading);
    assert!(d.check_free_space);
    assert_eq!(d.get_filename(), "a.pck");
}

#[test]
fn integrity_list_names_and_urls() {
    assert_eq!(game_list_name(), "pkg_version");
    assert_eq!(audio_list_name("English(US)"), "Audio_English(US)_pkg_version");
    assert_eq!(integrity_list_url("https://res", "pkg_version"), "https://res/pkg_version");
}

fn resource(dest: &str, md5: &str, size: u64) -> KuroResource {
    KuroResource { dest: dest.to_string(), md5: md5.to_string(), sample_hash: None, size, from_folder: None, chunk_infos: None }
}

#[test]
fn kuro_integrity_files_drop_one_leading_slash() {
    let index = KuroIndex {
        resource: vec![resource("/Client/a.pak", "m1", 10), resource("b.pak", "m2", 20), resource("//c", "m3", 0)],
        delete_files: None,
        patch_infos: None,
        zip_infos: None,
        group_resource: None,
        group_infos: None,
        apply_types: None,
    };
    let files = kuro_integrity_files(&index, "https://res");
    assert_eq!(
        files,
        vec![
            IntegrityFile { path: "Client/a.pak".into(), md5: "m1".into(), size: 10, base_url: "https://res".into() },
            IntegrityFile { path: "b.pak".into(), md5: "m2".into(), size: 20, base_url: "https://res".into() },
            IntegrityFile { path: "/c".into(), md5: "m3".into(), size: 0, base_url: "https://res".into() },
        ]
    );
}

#[test]
fn repair_run_checks_each_file_and_redownloads_failures_once() {
    let files = vec![integrity("a", "x", 1), integrity("b", "y", 2), integrity("c", "z", 3)];
    let mut run = Repairer::repair_game(Some(files), false).unwrap();
    assert_eq!(run.step(), RepairStep::Verify { index: 0, mode: VerifyMode::Full });
    assert_eq!(run.file(0).path, "a");
    run.verified(true);
    assert_eq!(run.step(), RepairStep::Verify { index: 1, mode: VerifyMode::Full });
    run.verified(false);
    assert_eq!(run.step(), RepairStep::Repair { index: 1 });
    run.repaired();
    assert!(!run.is_finished());
    assert_eq!(run.step(), RepairStep::Verify { index: 2, mode: VerifyMode::Full });
    run.verified(true);
    assert_eq!(run.step(), RepairStep::Finished);
    assert!(run.is_finished());
}

#[test]
fn repair_fails_without_a_list_and_fast_mode_compares_sizes() {
    assert!(Repairer::repair_game(None, true).is_none());
    assert!(Repairer::repair_audio(None, false).is_none());
    let run = Repairer::repair_audio(Some(vec![integrity("a", "x", 1)]), true).unwrap();
    assert_eq!(run.step(), RepairStep::Verify { index: 0, mode: VerifyMode::Fast });
    let empty = Repairer::repair_game(Some(Vec::new()), true).unwrap();
    assert!(empty.is_finished());
}

#[test]
fn tokens_are_digits_of_the_drawn_codes() {
    let t = url_safe_token(16);
    assert!(t.len() >= 32 && t.len() <= 48);
    assert!(t.chars().all(|c| c.is_ascii_digit()));
    assert_eq!(url_safe_token(0), "");
    assert_eq!(token_from_seed(7, 5), token_from_seed(7, 5));
}

#[test]
fn token_from_seed_matches_the_generator() {
    let mut seed: u64 = 0x1234_5678_9abc_def0;
    let mut expected = String::new();
    for _ in 0..20 {
        seed ^= seed << 13;
        seed ^= seed >> 7;
        seed ^= seed << 17;
        let idx = (seed % 64) as u8;
        let code = match idx {
            0..=25 => b'A' + idx,
            26..=51 => b'a' + (idx - 26),
            52..=61 => b'0' + (idx - 52),
            62 => b'-',
            _ => b'_',
        };
        expected.push_str(&code.to_string());
    }
    assert_eq!(token_from_seed(0x1234_5678_9abc_def0, 20), expected);
}

#[test]
fn filename_scheme_rule_applies_only_to_the_scheme() {
    assert_eq!(downloader("https://h.com/p/https://x", None).get_filename(), "x");
    assert_eq!(downloader("https://h/a/b.zip?x=1", None).get_filename(), "b.zip?x=1");
    assert_eq!(downloader("https://h/a/", None).get_filename(), "index.html");
    assert_eq!(downloader("https:\\\\h", None).get_filename(), "index.html");
}

#[test]
fn builder_chains_keep_the_announced_length() {
    let d = downloader("https://host/a.zip", Some("512"))
        .with_free_space_check(false)
        .with_chunk_size(7)
        .with_continue_downloading(false)
        .with_chunk_size(9);
    assert_eq!(d.length(), Some(512));
    assert_eq!(d.uri(), "https://host/a.zip");
    assert_eq!(d.chunk_size, 9);
    let e = downloader("https://host/a.zip", None).with_continue_downloading(true).with_free_space_check(true);
    assert_eq!(e.length(), None);
}
