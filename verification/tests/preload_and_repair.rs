use fischl::digest::to_hex_lower;
use fischl::kuro::{KuroResource, RESOURCE_DOWNLOADS};
use fischl::sophon::{PatchChunk, PatchFile};
use fischl::sophon_preload::{PreloadAction, PreloadEvent, SophonPreloadJob};
use fischl::yostar_repair::{RepairAction, RepairEvent, YostarRepairJob};
use md5::Digest;

fn md5_hex(data: &[u8]) -> String {
    to_hex_lower(md5::Md5::digest(data).as_slice())
}

fn archive_patch(name: &str, archive: &[u8], size: u64) -> PatchChunk {
    PatchChunk {
        patch_name: name.into(),
        patch_md5: md5_hex(archive),
        patch_size: size,
        patch_offset: 0,
        patch_length: archive.len() as u64,
        original_filename: String::new(),
    }
}

fn patch_file(chunks: Vec<(String, PatchChunk)>) -> PatchFile {
    PatchFile { name: "Data/p.pck".into(), size: 10, md5: md5_hex(b"new"), chunks }
}

#[test]
fn preload_claims_checks_and_credits_archives_on_disk() {
    let a = b"archive a".to_vec();
    let b = b"archive b".to_vec();
    let f = patch_file(vec![
        ("5.0".into(), archive_patch("a", &a, 100)),
        ("4.8".into(), archive_patch("x", &a, 7)),
        ("5.0".into(), archive_patch("b", &b, 200)),
    ]);
    let mut job = SophonPreloadJob::new(f, "5.0");
    assert!(matches!(job.step(PreloadEvent::Started { already_verified: false }), PreloadAction::Claim { patch: 0 }));
    assert_eq!(job.patch(0).patch_name, "a");
    assert!(matches!(job.step(PreloadEvent::Claimed(true)), PreloadAction::ReadArchive { patch: 0 }));
    assert!(matches!(job.step(PreloadEvent::ArchiveRead(Some(a))), PreloadAction::Credit { bytes: 100 }));
    assert!(matches!(job.step(PreloadEvent::Credited), PreloadAction::Claim { patch: 1 }));
    assert_eq!(job.patch(1).patch_name, "b");
    assert!(matches!(job.step(PreloadEvent::Claimed(false)), PreloadAction::Finish { mark_verified: true }));
    assert!(job.failures().is_empty());
}

#[test]
fn preload_of_a_verified_file_only_counts_new_claims() {
    let a = b"archive a".to_vec();
    let f = patch_file(vec![("5.0".into(), archive_patch("a", &a, 100)), ("5.0".into(), archive_patch("b", &a, 50))]);
    let mut job = SophonPreloadJob::new(f, "5.0");
    assert!(matches!(job.step(PreloadEvent::Started { already_verified: true }), PreloadAction::Claim { patch: 0 }));
    assert!(matches!(job.step(PreloadEvent::Claimed(false)), PreloadAction::Claim { patch: 1 }));
    assert!(matches!(job.step(PreloadEvent::Claimed(true)), PreloadAction::Credit { bytes: 50 }));
    assert!(matches!(job.step(PreloadEvent::Credited), PreloadAction::Finish { mark_verified: false }));
}

#[test]
fn preload_of_a_file_without_patches_for_the_version_does_nothing() {
    let f = patch_file(vec![("4.8".into(), archive_patch("a", b"z", 1))]);
    let mut job = SophonPreloadJob::new(f, "5.0");
    assert!(matches!(job.step(PreloadEvent::Started { already_verified: false }), PreloadAction::Finish { mark_verified: false }));
}

#[test]
fn preload_retries_deletes_bad_downloads_and_records_failures() {
    let a = b"archive a".to_vec();
    let b = b"archive b".to_vec();
    let f = patch_file(vec![("5.0".into(), archive_patch("a", &a, 100)), ("5.0".into(), archive_patch("b", &b, 1))]);
    let mut job = SophonPreloadJob::new(f, "5.0");
    job.step(PreloadEvent::Started { already_verified: false });
    job.step(PreloadEvent::Claimed(true));
    assert!(matches!(job.step(PreloadEvent::ArchiveRead(None)), PreloadAction::Fetch { patch: 0 }));
    assert!(matches!(job.step(PreloadEvent::ConnectFailed("no route".into())), PreloadAction::Fetch { patch: 0 }));
    assert!(matches!(job.step(PreloadEvent::Downloaded(Some(b"junk".to_vec()))), PreloadAction::Delete { patch: 0 }));
    assert!(matches!(job.step(PreloadEvent::Deleted), PreloadAction::Fetch { patch: 0 }));
    assert!(matches!(job.step(PreloadEvent::Downloaded(Some(b"junk".to_vec()))), PreloadAction::Delete { patch: 0 }));
    assert!(matches!(job.step(PreloadEvent::Deleted), PreloadAction::Claim { patch: 1 }));
    assert_eq!(job.failures().len(), 1);
    assert_eq!(job.failures()[0].file_name, "Data/p.pck");
    assert_eq!(job.failures()[0].chunk_name, "a");
    assert_eq!(job.failures()[0].error, "Checksum mismatch");
    assert!(matches!(job.step(PreloadEvent::Claimed(true)), PreloadAction::ReadArchive { patch: 1 }));
    assert!(matches!(job.step(PreloadEvent::ArchiveRead(Some(b"stale".to_vec()))), PreloadAction::Fetch { patch: 1 }));
    assert!(matches!(job.step(PreloadEvent::DownloadFailed("reset".into())), PreloadAction::Fetch { patch: 1 }));
    assert!(matches!(job.step(PreloadEvent::Downloaded(Some(b))), PreloadAction::Finish { mark_verified: false }));
}

#[test]
fn preload_gives_up_after_three_failed_requests() {
    let a = b"archive a".to_vec();
    let f = patch_file(vec![("5.0".into(), archive_patch("a", &a, 100))]);
    let mut job = SophonPreloadJob::new(f, "5.0");
    job.step(PreloadEvent::Started { already_verified: false });
    job.step(PreloadEvent::Claimed(true));
    job.step(PreloadEvent::ArchiveRead(None));
    assert!(matches!(job.step(PreloadEvent::DownloadFailed("one".into())), PreloadAction::Fetch { patch: 0 }));
    assert!(matches!(job.step(PreloadEvent::DownloadFailed("two".into())), PreloadAction::Fetch { patch: 0 }));
    assert!(matches!(job.step(PreloadEvent::DownloadFailed("three".into())), PreloadAction::Finish { mark_verified: false }));
    assert_eq!(job.failures()[0].error, "three");
}

fn resource(dest: &str, contents: &[u8]) -> KuroResource {
    KuroResource {
        dest: dest.into(),
        md5: md5_hex(contents),
        sample_hash: None,
        size: contents.len() as u64,
        from_folder: None,
        chunk_infos: None,
    }
}

#[test]
fn a_good_yostar_copy_is_accepted_with_its_size() {
    let r = resource("Data/a.bin", b"payload");
    let mut job = YostarRepairJob::new(r.clone(), false);
    assert!(matches!(
        job.step(RepairEvent::Inspected { already_verified: false, on_disk_len: Some(7), contents: Some(b"payload".to_vec()) }),
        RepairAction::Accept { mark_verified: true, credit_download: 7 }
    ));
    let mut fast = YostarRepairJob::new(r.clone(), true);
    assert!(matches!(
        fast.step(RepairEvent::Inspected { already_verified: true, on_disk_len: Some(1), contents: None }),
        RepairAction::Accept { mark_verified: false, credit_download: 7 }
    ));
    let mut missing = YostarRepairJob::new(r, false);
    assert!(matches!(
        missing.step(RepairEvent::Inspected { already_verified: true, on_disk_len: None, contents: None }),
        RepairAction::Fetch
    ));
}

#[test]
fn a_bad_yostar_copy_is_removed_downloaded_and_checked() {
    let r = resource("Data/a.bin", b"payload");
    let mut job = YostarRepairJob::new(r, true);
    assert!(matches!(
        job.step(RepairEvent::Inspected { already_verified: false, on_disk_len: Some(3), contents: None }),
        RepairAction::Remove
    ));
    assert!(matches!(job.step(RepairEvent::Removed), RepairAction::Fetch));
    assert!(matches!(job.step(RepairEvent::Downloaded { on_disk_len: Some(2), contents: None }), RepairAction::Fetch));
    assert!(matches!(
        job.step(RepairEvent::Downloaded { on_disk_len: Some(7), contents: None }),
        RepairAction::Accept { mark_verified: true, credit_download: 0 }
    ));
    assert!(job.failure().is_none());
}

#[test]
fn a_yostar_file_is_given_up_after_the_last_download() {
    let r = resource("Data/a.bin", b"payload");
    let mut job = YostarRepairJob::new(r, false);
    job.step(RepairEvent::Inspected { already_verified: false, on_disk_len: None, contents: None });
    assert!(matches!(job.step(RepairEvent::ConnectFailed("dns".into())), RepairAction::Fetch));
    assert!(matches!(job.step(RepairEvent::DownloadFailed("reset".into())), RepairAction::Fetch));
    assert_eq!(RESOURCE_DOWNLOADS, 3);
    assert!(matches!(
        job.step(RepairEvent::Downloaded { on_disk_len: Some(7), contents: Some(b"corrupt".to_vec()) }),
        RepairAction::GiveUp
    ));
    let f = job.failure().clone().unwrap();
    assert_eq!(f.file_name, "Data/a.bin");
    assert_eq!(f.chunk_name, "Data/a.bin");
    assert_eq!(f.error, "Checksum mismatch");
}
