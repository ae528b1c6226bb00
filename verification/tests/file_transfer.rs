use hbbs_enterprise::file_transfer::{
    calculate_crc32, calculate_hash, calculate_speed, check_permissions_with, should_sync_file,
    temp_file_name, verify_completion, ChunkAction, Completion, FileAction, FileChunk, FileCompressor,
    FileTransferManager, FileTransferRequest, TransferError, TransferPermissions, TransferStatus,
    TransferType, CHUNK_SIZE, MAX_CONCURRENT_TRANSFERS, TRANSFER_TIMEOUT,
};

fn request(path: &str, size: u64, transfer_type: TransferType) -> FileTransferRequest {
    FileTransferRequest {
        transfer_id: "".to_string(),
        file_path: path.to_string(),
        file_size: size,
        file_hash: "test_hash".to_string(),
        chunk_size: CHUNK_SIZE,
        resume_from: 0,
        transfer_type,
        compression: false,
        encryption: false,
    }
}

fn permissions(allowed: &[&str]) -> TransferPermissions {
    TransferPermissions {
        user_id: "test_user".to_string(),
        can_upload: true,
        can_download: true,
        can_sync: true,
        max_file_size: 1024 * 1024 * 10,
        allowed_paths: allowed.iter().map(|p| p.to_string()).collect(),
        blocked_extensions: vec!["exe".to_string()],
    }
}

fn chunk(id: &str, index: u64, data: &[u8], last: bool) -> FileChunk {
    FileChunk {
        transfer_id: id.to_string(),
        chunk_index: index,
        chunk_size: data.len(),
        data: data.to_vec(),
        checksum: calculate_crc32(data),
        is_last: last,
    }
}

#[test]
fn test_file_transfer_manager() {
    let mut manager = FileTransferManager::new("/tmp/transfers".to_string(), 1024 * 1024 * 100);
    manager.set_user_permissions("test_user".to_string(), permissions(&["/tmp/transfers"]));
    let request = request("/tmp/transfers/test.txt", 1024, TransferType::Upload);
    let start = manager.start_transfer("test_user", request, 10).unwrap();
    assert!(!start.transfer_id.is_empty());
    let progress = manager.get_progress(&start.transfer_id);
    assert!(progress.is_some());
}

#[test]
fn permissions_are_checked_in_order() {
    let p = permissions(&[]);
    let upload = request("/data/a.txt", 10, TransferType::Upload);
    assert_eq!(check_permissions_with(None, &upload, None, false), Err(TransferError::NoPermissions));
    assert_eq!(check_permissions_with(Some(&p), &upload, Some("txt"), false), Ok(()));
    let mut denied = p.clone();
    denied.can_upload = false;
    denied.can_download = false;
    denied.can_sync = false;
    assert_eq!(
        check_permissions_with(Some(&denied), &upload, None, true),
        Err(TransferError::UploadDenied)
    );
    assert_eq!(
        check_permissions_with(Some(&denied), &request("a", 1, TransferType::Download), None, true),
        Err(TransferError::DownloadDenied)
    );
    assert_eq!(
        check_permissions_with(Some(&denied), &request("a", 1, TransferType::Sync), None, true),
        Err(TransferError::SyncDenied)
    );
    assert_eq!(
        check_permissions_with(Some(&denied), &request("a", 1, TransferType::FolderSync), None, true),
        Err(TransferError::SyncDenied)
    );
    let big = request("/data/a.exe", 1024 * 1024 * 10 + 1, TransferType::Upload);
    assert_eq!(
        check_permissions_with(Some(&p), &big, Some("exe"), false),
        Err(TransferError::FileTooLarge)
    );
    let exe = request("/data/a.exe", 1024 * 1024 * 10, TransferType::Upload);
    assert_eq!(
        check_permissions_with(Some(&p), &exe, Some("exe"), false),
        Err(TransferError::ExtensionBlocked)
    );
    let fenced = permissions(&["/home"]);
    assert_eq!(
        check_permissions_with(Some(&fenced), &upload, Some("txt"), false),
        Err(TransferError::PathDenied)
    );
    assert_eq!(check_permissions_with(Some(&fenced), &upload, Some("txt"), true), Ok(()));
}

#[test]
fn permissions_look_at_the_path() {
    let mut m = FileTransferManager::new("/tmp".to_string(), 1);
    assert_eq!(
        m.check_permissions("nobody", &request("/home/u/a.txt", 1, TransferType::Upload)),
        Err(TransferError::NoPermissions)
    );
    m.set_user_permissions("u".to_string(), permissions(&["/home/u", "/srv"]));
    assert_eq!(m.check_permissions("u", &request("/home/u/a.txt", 1, TransferType::Upload)), Ok(()));
    assert_eq!(m.check_permissions("u", &request("/srv/x/y", 1, TransferType::Download)), Ok(()));
    assert_eq!(
        m.check_permissions("u", &request("/home/user/a.txt", 1, TransferType::Upload)),
        Err(TransferError::PathDenied)
    );
    assert_eq!(
        m.check_permissions("u", &request("/home/u/setup.EXE", 1, TransferType::Upload)),
        Err(TransferError::ExtensionBlocked)
    );
    assert_eq!(m.check_permissions("u", &request("/home/u/exe", 1, TransferType::Upload)), Ok(()));
    assert_eq!(
        m.start_transfer("u", request("/etc/passwd", 1, TransferType::Download), 0),
        Err(TransferError::PathDenied)
    );
    assert_eq!(m.active_transfers.len(), 0);
    assert_eq!(m.check_sync_allowed("nobody"), Err(TransferError::NoSyncPermissions));
    assert_eq!(m.check_sync_allowed("u"), Ok(()));
    let mut p = permissions(&[]);
    p.can_sync = false;
    m.set_user_permissions("v".to_string(), p);
    assert_eq!(m.check_sync_allowed("v"), Err(TransferError::FolderSyncDenied));
}

#[test]
fn transfers_begin_with_a_file_action() {
    let mut m = FileTransferManager::new("/tmp/t".to_string(), 1);
    let mut upload = request("/data/a.bin", 100, TransferType::Upload);
    upload.transfer_id = "t1".to_string();
    let start = m.begin_transfer(upload.clone(), 7).unwrap();
    assert_eq!(start.transfer_id, "t1");
    assert_eq!(start.file, FileAction::Create { path: "/tmp/t/t1.tmp".to_string() });
    assert_eq!(m.temp_file_path("t1"), "/tmp/t/t1.tmp");
    let t = m.active_transfers.get("t1").unwrap();
    assert_eq!(t.request, upload);
    assert!(t.has_file);
    assert_eq!((t.bytes_transferred, t.start_time, t.last_activity), (0, 7, 7));
    let mut resume = request("/data/b.bin", 100, TransferType::Upload);
    resume.transfer_id = "t2".to_string();
    resume.resume_from = 40;
    assert_eq!(
        m.begin_transfer(resume, 8).unwrap().file,
        FileAction::ResumeOrCreate { path: "/tmp/t/t2.tmp".to_string(), resume_from: 40 }
    );
    assert_eq!(m.active_transfers.get("t2").unwrap().bytes_transferred, 40);
    let mut download = request("/data/c.bin", 100, TransferType::Download);
    download.transfer_id = "t3".to_string();
    assert_eq!(
        m.begin_transfer(download, 8).unwrap().file,
        FileAction::Read { path: "/data/c.bin".to_string() }
    );
    let sync = m.begin_transfer(request("/data/d.bin", 1, TransferType::Sync), 9).unwrap();
    assert_eq!(sync.file, FileAction::Nothing);
    assert_eq!(sync.transfer_id.len(), 36);
    assert!(!m.active_transfers.get(&sync.transfer_id).unwrap().has_file);
    for _ in 4..MAX_CONCURRENT_TRANSFERS {
        m.begin_transfer(request("/x", 1, TransferType::FolderSync), 9).unwrap();
    }
    assert_eq!(m.active_transfers.len(), 10);
    assert_eq!(
        m.begin_transfer(request("/x", 1, TransferType::Sync), 9),
        Err(TransferError::TooManyTransfers)
    );
    assert_eq!(m.pause_transfer("t1"), Ok(()));
    assert_eq!(m.pause_transfer("zz"), Err(TransferError::TransferNotFound));
    assert_eq!(m.cancel_transfer("t1"), Ok("/tmp/t/t1.tmp".to_string()));
    assert_eq!(m.cancel_transfer("t1"), Err(TransferError::TransferNotFound));
    assert_eq!(m.active_transfers.len(), 9);
}

#[test]
fn chunks_are_checked_and_counted() {
    let mut m = FileTransferManager::new("/tmp/t".to_string(), 1);
    let mut upload = request("/data/a.bin", 16, TransferType::Upload);
    upload.transfer_id = "t".to_string();
    m.begin_transfer(upload, 100).unwrap();
    assert_eq!(
        m.handle_chunk(&chunk("zz", 0, b"abcd", false), 101),
        Err(TransferError::TransferNotFound)
    );
    let mut bad = chunk("t", 0, b"abcd", false);
    bad.checksum = "00000000".to_string();
    assert_eq!(m.handle_chunk(&bad, 101), Err(TransferError::ChecksumMismatch));
    assert_eq!(
        m.handle_chunk(&chunk("t", u64::MAX, b"abcd", false), 101),
        Err(TransferError::ChunkOutOfRange)
    );
    assert_eq!(m.get_progress("t").unwrap().bytes_transferred, 0);
    assert_eq!(
        m.handle_chunk(&chunk("t", 0, b"abcd", false), 101),
        Ok(ChunkAction { write_at: Some(0), complete: false })
    );
    assert_eq!(
        m.handle_chunk(&chunk("t", 3, b"efghijkl", false), 105),
        Ok(ChunkAction { write_at: Some(3 * 1048576), complete: false })
    );
    assert_eq!(
        m.handle_chunk(&chunk("t", 3, b"", true), 105),
        Ok(ChunkAction { write_at: Some(3 * 1048576), complete: true })
    );
    let t = m.active_transfers.get("t").unwrap();
    assert_eq!(t.chunks_received, vec![0, 3]);
    assert_eq!(t.bytes_transferred, 12);
    assert_eq!(t.last_activity, 105);
    assert_eq!(t.speed_samples, vec![(101, 4), (105, 12), (105, 12)]);
    let p = m.get_progress("t").unwrap();
    assert_eq!(p.transfer_id, "t");
    assert_eq!(p.total_bytes, 16);
    // 8 bytes in 4 seconds, 4 bytes to go
    assert_eq!(p.speed_bps, 2);
    assert_eq!(p.eta_seconds, 2);
    assert_eq!(p.status, TransferStatus::InProgress);
    assert_eq!(p.error_message, None);
    assert_eq!(m.get_progress("zz"), None);
    for k in 0..12u64 {
        m.handle_chunk(&chunk("t", 10 + k, b"x", false), 200 + k).unwrap();
    }
    let t = m.active_transfers.get("t").unwrap();
    assert_eq!(t.speed_samples.len(), 10);
    assert_eq!(t.speed_samples[0], (202, 15));
    assert_eq!(t.speed_samples[9], (211, 24));
    let done = m.complete_transfer("t").unwrap();
    assert_eq!(done.bytes_transferred, 24);
    assert!(m.complete_transfer("t").is_none());
    let mut sync = request("/data/a.bin", 16, TransferType::Sync);
    sync.transfer_id = "s".to_string();
    m.begin_transfer(sync, 100).unwrap();
    assert_eq!(
        m.handle_chunk(&chunk("s", 1, b"abcd", true), 101),
        Ok(ChunkAction { write_at: None, complete: true })
    );
}

#[test]
fn speed_is_bytes_over_seconds() {
    assert_eq!(calculate_speed(&vec![]), 0);
    assert_eq!(calculate_speed(&vec![(1, 100)]), 0);
    assert_eq!(calculate_speed(&vec![(1, 100), (1, 900)]), 0);
    assert_eq!(calculate_speed(&vec![(1, 100), (5, 900)]), 200);
    assert_eq!(calculate_speed(&vec![(1, 100), (3, 7), (4, 1000)]), 300);
    assert_eq!(calculate_speed(&vec![(5, 100), (1, 900)]), 0);
    assert_eq!(calculate_speed(&vec![(1, 900), (5, 100)]), 0);
}

#[test]
fn checksums_and_digests() {
    assert_eq!(calculate_crc32(b"123456789"), "cbf43926");
    assert_eq!(calculate_crc32(b""), "00000000");
    assert_eq!(
        calculate_hash(b"abc"),
        "ba7816bf8f01cfea414140de5dae2223b00361a396177a9cb410ff61f20015ad"
    );
    let r = request("/final/place", 1, TransferType::Upload);
    assert_eq!(
        verify_completion(&r, "/tmp/x.tmp".to_string(), "test_hash"),
        Ok(Completion::MoveIntoPlace {
            from: "/tmp/x.tmp".to_string(),
            to: "/final/place".to_string()
        })
    );
    assert_eq!(
        verify_completion(&r, "/tmp/x.tmp".to_string(), "other"),
        Err(TransferError::HashMismatch)
    );
    assert_eq!(TransferError::HashMismatch.message(), "File hash verification failed");
    assert_eq!(TransferError::TooManyTransfers.message(), "Too many concurrent transfers");
}

#[test]
fn stale_transfers_are_dropped() {
    let mut m = FileTransferManager::new("/tmp/t".to_string(), 1);
    for (id, at) in [("a", 0u64), ("b", 100), ("c", 1000)] {
        let mut r = request("/x", 1, TransferType::Sync);
        r.transfer_id = id.to_string();
        m.begin_transfer(r, at).unwrap();
    }
    assert_eq!(TRANSFER_TIMEOUT, 300);
    assert_eq!(m.cleanup_expired_transfers(300), Vec::<String>::new());
    assert_eq!(m.cleanup_expired_transfers(301), vec!["a".to_string()]);
    assert_eq!(m.cleanup_expired_transfers(1300), vec!["b".to_string()]);
    assert_eq!(m.cleanup_expired_transfers(1301), vec!["c".to_string()]);
    assert_eq!(m.active_transfers.len(), 0);
}

#[test]
fn files_are_synchronised_when_they_differ() {
    assert!(should_sync_file(false, 1, 1, 1, 1));
    assert!(!should_sync_file(true, 1, 1, 1, 1));
    assert!(should_sync_file(true, 1, 2, 1, 1));
    assert!(should_sync_file(true, 1, 1, 2, 1));
    assert!(!should_sync_file(true, 1, 1, 1, 2));
}

#[test]
fn data_is_packed_and_unpacked() {
    let data: Vec<u8> = b"the same line again and again. ".repeat(100);
    let packed = FileCompressor::compress_data(&data).unwrap();
    assert!(packed.len() < data.len());
    // a gzip stream begins with these two bytes
    assert_eq!(&packed[..2], &[0x1f, 0x8b]);
    assert_eq!(FileCompressor::decompress_data(&packed), Ok(data.clone()));
    assert_eq!(FileCompressor::decompress_data(&data), Err(TransferError::Compression));
    assert_eq!(FileCompressor::compress_data(&data), Ok(packed));
    let empty = FileCompressor::compress_data(b"").unwrap();
    assert_eq!(FileCompressor::decompress_data(&empty), Ok(vec![]));
}

#[test]
fn new_manager_allows_the_usual_extensions() {
    let m = FileTransferManager::new("/tmp".to_string(), 5);
    assert_eq!(m.max_file_size, 5);
    assert_eq!(m.temp_dir, "/tmp");
    assert_eq!(
        m.allowed_extensions,
        vec![
            "txt", "pdf", "doc", "docx", "xls", "xlsx", "ppt", "pptx", "zip", "rar", "7z", "jpg",
            "jpeg", "png", "gif", "mp4", "avi", "mkv"
        ]
    );
}

#[test]
fn temporary_files_are_named_after_the_transfer() {
    assert_eq!(temp_file_name("t1"), "t1.tmp");
    assert_eq!(temp_file_name(""), ".tmp");
    let m = FileTransferManager::new("/var/tmp".to_string(), 1);
    assert_eq!(m.temp_file_path("abc"), "/var/tmp/abc.tmp");
}
