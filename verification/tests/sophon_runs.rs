use fischl::digest::to_hex_lower;
use fischl::integrity::{integrity_files, IntegrityFile, RawIntegrityEntry};
use fischl::sophon::{decode_manifest, PatchAction, PatchChunk, PatchFile, SophonChunk, SophonFile};
use fischl::sophon_job::{JobAction, JobEvent, SophonFileJob, CHUNK_DOWNLOADS};
use fischl::sophon_patch::{PatchEvent, PatchJobAction, SophonPatchJob};
use md5::Digest;

fn md5_hex(data: &[u8]) -> String {
    to_hex_lower(md5::Md5::digest(data).as_slice())
}

fn packed_chunk(name: &str, payload: &[u8], offset: u64) -> (SophonChunk, Vec<u8>) {
    let packed = zstd::encode_all(payload, 0).unwrap();
    let c = SophonChunk {
        chunk_name: name.into(),
        chunk_md5: md5_hex(&packed),
        chunk_on_file_offset: offset,
        chunk_size: packed.len() as u64,
        chunk_decompressed_size: payload.len() as u64,
    };
    (c, packed)
}

fn file_of(chunks: Vec<SophonChunk>, whole: &[u8]) -> SophonFile {
    SophonFile { name: "Data/a.pck".into(), chunks, file_type: 0, size: whole.len() as u64, md5: md5_hex(whole) }
}

#[test]
fn manifest_bytes_are_zstd_decoded() {
    let packed = zstd::encode_all(&b"manifest body"[..], 0).unwrap();
    assert_eq!(decode_manifest(&packed), Some(b"manifest body".to_vec()));
    assert_eq!(decode_manifest(b"plain"), None);
}

#[test]
fn a_missing_file_is_assembled_from_its_chunks() {
    let (c0, p0) = packed_chunk("c0", b"hello ", 0);
    let (c1, p1) = packed_chunk("c1", b"world", 6);
    let f = file_of(vec![c0, c1], b"hello world");
    let mut job = SophonFileJob::new(f, false);
    match job.step(JobEvent::Staged { already_verified: false, on_disk_len: None, contents: None }) {
        JobAction::Create { size } => assert_eq!(size, 11),
        other => panic!("unexpected {other:?}"),
    }
    assert!(matches!(job.step(JobEvent::Created), JobAction::Fetch { chunk: 0 }));
    match job.step(JobEvent::Downloaded(Some(p0))) {
        JobAction::Write { offset, data } => {
            assert_eq!(offset, 0);
            assert_eq!(data, b"hello ".to_vec());
        }
        other => panic!("unexpected {other:?}"),
    }
    assert!(matches!(job.step(JobEvent::Written), JobAction::Fetch { chunk: 1 }));
    assert!(matches!(job.step(JobEvent::DownloadFailed("timeout".into())), JobAction::Fetch { chunk: 1 }));
    match job.step(JobEvent::Downloaded(Some(p1))) {
        JobAction::Write { offset, data } => {
            assert_eq!(offset, 6);
            assert_eq!(data, b"world".to_vec());
        }
        other => panic!("unexpected {other:?}"),
    }
    assert!(matches!(job.step(JobEvent::Written), JobAction::Read));
    match job.step(JobEvent::Read(Some(b"hello world".to_vec()))) {
        JobAction::Accept { mark_verified, credit_download } => {
            assert!(mark_verified);
            assert_eq!(credit_download, 0);
        }
        other => panic!("unexpected {other:?}"),
    }
    assert!(job.failures().is_empty());
}

#[test]
fn a_good_staged_file_is_accepted_and_credited() {
    let (c0, p0) = packed_chunk("c0", b"abc", 0);
    let f = file_of(vec![c0], b"abc");
    let mut job = SophonFileJob::new(f, true);
    assert!(matches!(job.step(JobEvent::Staged { already_verified: false, on_disk_len: Some(3), contents: None }), JobAction::Read));
    match job.step(JobEvent::Read(Some(b"abc".to_vec()))) {
        JobAction::Accept { mark_verified, credit_download } => {
            assert!(mark_verified);
            assert_eq!(credit_download, p0.len() as u64);
        }
        other => panic!("unexpected {other:?}"),
    }
}

#[test]
fn failing_chunks_are_recorded_and_bad_files_reassembled_then_given_up() {
    let (c0, _) = packed_chunk("c0", b"abc", 0);
    let f = file_of(vec![c0], b"abc");
    let mut job = SophonFileJob::new(f, false);
    assert!(matches!(job.step(JobEvent::Staged { already_verified: false, on_disk_len: Some(3), contents: Some(b"abd".to_vec()) }), JobAction::Create { .. }));
    for round in 0..4 {
        assert!(matches!(job.step(JobEvent::Created), JobAction::Fetch { chunk: 0 }));
        for _ in 0..CHUNK_DOWNLOADS - 1 {
            assert!(matches!(job.step(JobEvent::DownloadFailed("reset".into())), JobAction::Fetch { chunk: 0 }));
        }
        assert!(matches!(job.step(JobEvent::DownloadFailed("reset".into())), JobAction::Read));
        let next = job.step(JobEvent::Read(None));
        if round < 3 {
            assert!(matches!(next, JobAction::Create { size: 3 }));
        } else {
            assert!(matches!(next, JobAction::GiveUp));
        }
    }
    assert_eq!(job.failures().len(), 4);
    assert_eq!(job.failures()[0].chunk_name, "c0");
    assert_eq!(job.failures()[0].error, "reset");
}

#[test]
fn a_chunk_that_fails_its_checksum_is_not_written() {
    let (c0, _) = packed_chunk("c0", b"abc", 0);
    let f = file_of(vec![c0], b"abc");
    let mut job = SophonFileJob::new(f, false);
    job.step(JobEvent::Staged { already_verified: false, on_disk_len: None, contents: None });
    job.step(JobEvent::Created);
    assert!(matches!(job.step(JobEvent::Downloaded(Some(b"corrupt".to_vec()))), JobAction::Read));
}

#[test]
fn directories_are_skipped() {
    let f = SophonFile { name: "dir/".into(), chunks: vec![], file_type: 64, size: 0, md5: String::new() };
    let mut job = SophonFileJob::new(f, false);
    assert!(matches!(job.step(JobEvent::Staged { already_verified: false, on_disk_len: None, contents: None }), JobAction::Skip));
}

fn patch_chunk(name: &str, archive: &[u8], offset: u64, length: u64, original: &str) -> PatchChunk {
    PatchChunk {
        patch_name: name.into(),
        patch_md5: md5_hex(archive),
        patch_size: archive.len() as u64,
        patch_offset: offset,
        patch_length: length,
        original_filename: original.into(),
    }
}

#[test]
fn patches_are_fetched_checked_cut_and_applied() {
    let archive = b"xxxxHDIFF13-diff-bytes".to_vec();
    let new_contents = b"new file".to_vec();
    let f = PatchFile {
        name: "Data/b.pck".into(),
        size: new_contents.len() as u64,
        md5: md5_hex(&new_contents),
        chunks: vec![
            ("5.0".into(), patch_chunk("arch1", &archive, 4, 7, "")),
            ("4.9".into(), patch_chunk("other", &archive, 0, 4, "")),
            ("5.0".into(), patch_chunk("arch1", &archive, 0, 4, "old_b.pck")),
        ],
    };
    let mut job = SophonPatchJob::new(f, "5.0", false);
    assert!(matches!(job.step(PatchEvent::Started { already_verified: false }), PatchJobAction::ReadOutput));
    assert!(matches!(job.step(PatchEvent::OutputRead(None)), PatchJobAction::Fetch { patch: 0 }));
    assert!(matches!(job.step(PatchEvent::Fetched(true)), PatchJobAction::ReadArchive { patch: 0 }));
    match job.step(PatchEvent::ArchiveRead(Some(archive.clone()))) {
        PatchJobAction::Apply { patch, how, data } => {
            assert_eq!(patch, 0);
            assert_eq!(how, PatchAction::PatchSelf);
            assert_eq!(data, b"HDIFF13".to_vec());
        }
        other => panic!("unexpected {other:?}"),
    }
    assert!(matches!(job.step(PatchEvent::Applied), PatchJobAction::Fetch { patch: 1 }));
    assert!(matches!(job.step(PatchEvent::Fetched(true)), PatchJobAction::ReadArchive { patch: 1 }));
    match job.step(PatchEvent::ArchiveRead(Some(archive.clone()))) {
        PatchJobAction::Apply { how, data, .. } => {
            assert_eq!(how, PatchAction::PatchOriginal);
            assert_eq!(data, b"xxxx".to_vec());
        }
        other => panic!("unexpected {other:?}"),
    }
    assert!(matches!(job.step(PatchEvent::Applied), PatchJobAction::ReadOutput));
    assert!(matches!(job.step(PatchEvent::OutputRead(Some(new_contents))), PatchJobAction::Credit { mark_verified: true, credit_download: 0 }));
}

#[test]
fn preloaded_patches_are_read_and_bad_archives_skipped() {
    let archive = b"plain copy data".to_vec();
    let f = PatchFile {
        name: "c".into(),
        size: 1,
        md5: md5_hex(b"z"),
        chunks: vec![("5.0".into(), patch_chunk("a", &archive, 0, 5, ""))],
    };
    let mut job = SophonPatchJob::new(f.clone(), "5.0", true);
    job.step(PatchEvent::Started { already_verified: false });
    assert!(matches!(job.step(PatchEvent::OutputRead(Some(b"y".to_vec()))), PatchJobAction::ReadArchive { patch: 0 }));
    match job.step(PatchEvent::ArchiveRead(Some(archive.clone()))) {
        PatchJobAction::Apply { how, data, .. } => {
            assert_eq!(how, PatchAction::CopyData);
            assert_eq!(data, b"plain".to_vec());
        }
        other => panic!("unexpected {other:?}"),
    }
    let mut bad = SophonPatchJob::new(f.clone(), "5.0", true);
    bad.step(PatchEvent::Started { already_verified: false });
    bad.step(PatchEvent::OutputRead(None));
    assert!(matches!(bad.step(PatchEvent::ArchiveRead(Some(b"tampered".to_vec()))), PatchJobAction::ReadOutput));
    assert!(matches!(bad.step(PatchEvent::OutputRead(None)), PatchJobAction::Done));
    let mut known = SophonPatchJob::new(f.clone(), "5.0", true);
    assert!(matches!(known.step(PatchEvent::Started { already_verified: true }), PatchJobAction::Credit { mark_verified: false, credit_download: 0 }));
    let mut none = SophonPatchJob::new(f, "1.0", false);
    none.step(PatchEvent::Started { already_verified: false });
    assert!(matches!(none.step(PatchEvent::OutputRead(None)), PatchJobAction::Done));
}

#[test]
fn download_is_credited_only_for_files_that_needed_no_patch() {
    let archive = b"patch bytes".to_vec();
    let good = b"new".to_vec();
    let f = PatchFile {
        name: "d".into(),
        size: 42,
        md5: md5_hex(&good).to_uppercase(),
        chunks: vec![("5.0".into(), patch_chunk("a", &archive, 0, 5, ""))],
    };
    let mut known = SophonPatchJob::new(f.clone(), "5.0", false);
    assert!(matches!(known.step(PatchEvent::Started { already_verified: true }), PatchJobAction::Credit { mark_verified: false, credit_download: 42 }));
    let mut present = SophonPatchJob::new(f.clone(), "5.0", false);
    present.step(PatchEvent::Started { already_verified: false });
    assert!(matches!(present.step(PatchEvent::OutputRead(Some(good.clone()))), PatchJobAction::Credit { mark_verified: true, credit_download: 42 }));
    let mut preloaded = SophonPatchJob::new(f.clone(), "5.0", true);
    preloaded.step(PatchEvent::Started { already_verified: false });
    assert!(matches!(preloaded.step(PatchEvent::OutputRead(Some(good.clone()))), PatchJobAction::Credit { mark_verified: true, credit_download: 0 }));
    let mut patched = SophonPatchJob::new(f, "5.0", false);
    patched.step(PatchEvent::Started { already_verified: false });
    patched.step(PatchEvent::OutputRead(None));
    patched.step(PatchEvent::Fetched(true));
    assert!(matches!(patched.step(PatchEvent::ArchiveRead(Some(archive))), PatchJobAction::Apply { .. }));
    assert!(matches!(patched.step(PatchEvent::Applied), PatchJobAction::ReadOutput));
    assert!(matches!(patched.step(PatchEvent::OutputRead(Some(good))), PatchJobAction::Credit { mark_verified: true, credit_download: 0 }));
}

#[test]
fn a_short_archive_hands_on_what_it_holds_for_a_patch_of_an_original() {
    let archive = b"0123456789".to_vec();
    let f = PatchFile {
        name: "e".into(),
        size: 1,
        md5: md5_hex(b"out"),
        chunks: vec![
            ("5.0".into(), patch_chunk("a", &archive, 6, 100, "old_e")),
            ("5.0".into(), patch_chunk("b", &archive, 50, 4, "old_e")),
            ("5.0".into(), patch_chunk("c", &archive, 6, 100, "")),
        ],
    };
    let mut job = SophonPatchJob::new(f, "5.0", true);
    job.step(PatchEvent::Started { already_verified: false });
    assert!(matches!(job.step(PatchEvent::OutputRead(None)), PatchJobAction::ReadArchive { patch: 0 }));
    match job.step(PatchEvent::ArchiveRead(Some(archive.clone()))) {
        PatchJobAction::Apply { patch, how, data } => {
            assert_eq!(patch, 0);
            assert_eq!(how, PatchAction::PatchOriginal);
            assert_eq!(data, b"6789".to_vec());
        }
        other => panic!("unexpected {other:?}"),
    }
    assert!(matches!(job.step(PatchEvent::Applied), PatchJobAction::ReadArchive { patch: 1 }));
    match job.step(PatchEvent::ArchiveRead(Some(archive.clone()))) {
        PatchJobAction::Apply { how, data, .. } => {
            assert_eq!(how, PatchAction::PatchOriginal);
            assert!(data.is_empty());
        }
        other => panic!("unexpected {other:?}"),
    }
    assert!(matches!(job.step(PatchEvent::Applied), PatchJobAction::ReadArchive { patch: 2 }));
    assert!(matches!(job.step(PatchEvent::ArchiveRead(Some(archive))), PatchJobAction::ReadOutput));
}

#[test]
fn integrity_list_lines_become_files() {
    let entries = vec![
        RawIntegrityEntry { remote_name: "UnityPlayer.dll".into(), md5: "8c8c3d845b957e4cb84c662bed44d072".into(), file_size: 33466104 },
        RawIntegrityEntry { remote_name: "Data/x".into(), md5: "m".into(), file_size: 0 },
    ];
    assert_eq!(
        integrity_files(&entries, "https://res"),
        vec![
            IntegrityFile { path: "UnityPlayer.dll".into(), md5: "8c8c3d845b957e4cb84c662bed44d072".into(), size: 33466104, base_url: "https://res".into() },
            IntegrityFile { path: "Data/x".into(), md5: "m".into(), size: 0, base_url: "https://res".into() },
        ]
    );
}
