//! The bookkeeping of file transfers: who may transfer what, which
//! transfers are under way and how far they have come, and the checks on
//! the chunks and on the finished file. Reading and writing the files is
//! the caller's part. Times are in seconds since the Unix epoch.

use vstd::prelude::*;
use vstd::string::*;
use crate::boundary::{
    UUID_TEXT_LEN, crc32, crc32_of, gunzip, gunzip_of, gzip, gzip_of, new_uuid_v4, path_extension, path_join,
    path_starts_with, sha256, sha256_of, to_lowercase,
};
use crate::keyed::KeyedList;
use crate::text::{
    lemma_pushed_holds,
    contains_str, hex_bytes_string, hex_of, hex_of_bytes, hex_string, str_eq, view_opt, views_of,
};

verus! {

/// The size of a chunk, in bytes.
pub const CHUNK_SIZE: usize = 1048576;

/// How many transfers may be under way at once.
pub const MAX_CONCURRENT_TRANSFERS: usize = 10;

/// A transfer that was idle for longer than this, in seconds, is dropped.
pub const TRANSFER_TIMEOUT: u64 = 300;

/// How many samples of the progress are kept for the speed.
pub const SPEED_SAMPLES: usize = 10;

/// The request to transfer a file.
#[derive(Debug, PartialEq, Eq)]
pub struct FileTransferRequest {
    pub transfer_id: String,
    pub file_path: String,
    pub file_size: u64,
    /// The SHA-256 digest of the file, in hexadecimal.
    pub file_hash: String,
    pub chunk_size: usize,
    /// The position from which an interrupted transfer goes on.
    pub resume_from: u64,
    pub transfer_type: TransferType,
    pub compression: bool,
    pub encryption: bool,
}

impl Clone for FileTransferRequest {
    fn clone(&self) -> (r: Self)
        ensures
            r == *self,
    {
        FileTransferRequest {
            transfer_id: self.transfer_id.clone(),
            file_path: self.file_path.clone(),
            file_size: self.file_size,
            file_hash: self.file_hash.clone(),
            chunk_size: self.chunk_size,
            resume_from: self.resume_from,
            transfer_type: self.transfer_type,
            compression: self.compression,
            encryption: self.encryption,
        }
    }
}

/// The direction and kind of a transfer.
#[derive(Debug, Clone, Copy, PartialEq, Eq, Structural)]
pub enum TransferType {
    Upload,
    Download,
    Sync,
    FolderSync,
}

/// One chunk of a file.
#[derive(Debug, Clone, PartialEq, Eq)]
pub struct FileChunk {
    pub transfer_id: String,
    pub chunk_index: u64,
    pub chunk_size: usize,
    pub data: Vec<u8>,
    /// The CRC-32 checksum of the data, in eight hexadecimal digits.
    pub checksum: String,
    pub is_last: bool,
}

/// How far a transfer has come.
#[derive(Debug, Clone, PartialEq, Eq)]
pub struct TransferProgress {
    pub transfer_id: String,
    pub bytes_transferred: u64,
    pub total_bytes: u64,
    /// Bytes per second.
    pub speed_bps: u64,
    /// The estimated time to completion, in seconds.
    pub eta_seconds: u64,
    pub status: TransferStatus,
    pub error_message: Option<String>,
}

/// The state of a transfer.
#[derive(Debug, Clone, Copy, PartialEq, Eq, Structural)]
pub enum TransferStatus {
    Pending,
    InProgress,
    Paused,
    Completed,
    Failed,
    Cancelled,
}

/// What a user may transfer.
#[derive(Debug, Clone, PartialEq, Eq)]
pub struct TransferPermissions {
    pub user_id: String,
    pub can_upload: bool,
    pub can_download: bool,
    pub can_sync: bool,
    pub max_file_size: u64,
    /// The directories under which the user may transfer; empty for any.
    pub allowed_paths: Vec<String>,
    /// In lower case.
    pub blocked_extensions: Vec<String>,
}

/// A transfer that is under way.
#[derive(Debug, PartialEq, Eq)]
pub struct ActiveTransfer {
    pub request: FileTransferRequest,
    /// Whether the caller holds a file open for the transfer.
    pub has_file: bool,
    pub bytes_transferred: u64,
    pub start_time: u64,
    pub last_activity: u64,
    /// The indices of the chunks that came in, each once.
    pub chunks_received: Vec<u64>,
    /// The last samples of the progress: a time and the bytes transferred
    /// by then.
    pub speed_samples: Vec<(u64, u64)>,
}

/// Why a transfer was turned down.
#[derive(Debug, Clone, Copy, PartialEq, Eq, Structural)]
pub enum TransferError {
    NoPermissions,
    UploadDenied,
    DownloadDenied,
    SyncDenied,
    FileTooLarge,
    ExtensionBlocked,
    PathDenied,
    TooManyTransfers,
    TransferNotFound,
    ChecksumMismatch,
    /// The chunk lies beyond what a file position can express.
    ChunkOutOfRange,
    HashMismatch,
    NoSyncPermissions,
    FolderSyncDenied,
    /// The data could not be packed or unpacked.
    Compression,
}

impl TransferError {
    /// The error in words.
    pub fn message(&self) -> (m: &'static str)
        ensures
            m@ == match *self {
                TransferError::NoPermissions => "User has no file transfer permissions"@,
                TransferError::UploadDenied => "User not allowed to upload files"@,
                TransferError::DownloadDenied => "User not allowed to download files"@,
                TransferError::SyncDenied => "User not allowed to sync files"@,
                TransferError::FileTooLarge => "File size exceeds user limit"@,
                TransferError::ExtensionBlocked => "File extension not allowed"@,
                TransferError::PathDenied => "File path not allowed"@,
                TransferError::TooManyTransfers => "Too many concurrent transfers"@,
                TransferError::TransferNotFound => "Transfer not found"@,
                TransferError::ChecksumMismatch => "Chunk checksum mismatch"@,
                TransferError::ChunkOutOfRange => "Chunk index out of range"@,
                TransferError::HashMismatch => "File hash verification failed"@,
                TransferError::NoSyncPermissions => "User has no sync permissions"@,
                TransferError::FolderSyncDenied => "User not allowed to sync folders"@,
                TransferError::Compression => "Compression failed"@,
            },
    {
        match self {
            TransferError::NoPermissions => "User has no file transfer permissions",
            TransferError::UploadDenied => "User not allowed to upload files",
            TransferError::DownloadDenied => "User not allowed to download files",
            TransferError::SyncDenied => "User not allowed to sync files",
            TransferError::FileTooLarge => "File size exceeds user limit",
            TransferError::ExtensionBlocked => "File extension not allowed",
            TransferError::PathDenied => "File path not allowed",
            TransferError::TooManyTransfers => "Too many concurrent transfers",
            TransferError::TransferNotFound => "Transfer not found",
            TransferError::ChecksumMismatch => "Chunk checksum mismatch",
            TransferError::ChunkOutOfRange => "Chunk index out of range",
            TransferError::HashMismatch => "File hash verification failed",
            TransferError::NoSyncPermissions => "User has no sync permissions",
            TransferError::FolderSyncDenied => "User not allowed to sync folders",
            TransferError::Compression => "Compression failed",
        }
    }
}

/// What the caller does with the file of a transfer that begins.
#[derive(Debug, PartialEq, Eq)]
pub enum FileAction {
    /// Open the file at `path` for writing and go to `resume_from`, if the
    /// file exists; create it otherwise.
    ResumeOrCreate { path: String, resume_from: u64 },
    /// Create the file at `path`.
    Create { path: String },
    /// Open the file at `path` for reading.
    Read { path: String },
    /// The transfer has no file of its own.
    Nothing,
}

/// What a transfer that begins hands out.
#[derive(Debug, PartialEq, Eq)]
pub struct TransferStart {
    pub transfer_id: String,
    pub file: FileAction,
}

/// What the caller does with a chunk that was taken in: write the data at
/// `write_at`, if the transfer has a file; and complete the transfer after
/// the last chunk.
#[derive(Debug, Clone, Copy, PartialEq, Eq, Structural)]
pub struct ChunkAction {
    pub write_at: Option<u64>,
    pub complete: bool,
}

/// What the caller does with the file of a transfer that is complete.
#[derive(Debug, PartialEq, Eq)]
pub enum Completion {
    /// The digest is right: move the temporary file to its final place.
    MoveIntoPlace { from: String, to: String },
    /// The digest is wrong: remove the temporary file.
    Discard { temp: String },
    /// The transfer had no file.
    Nothing,
}

/// The verdict on a request, from the user's permissions, the extension of
/// the file's name in lower case, and whether the file lies under one of
/// the allowed directories.
pub open spec fn permission_verdict(
    permissions: Option<TransferPermissions>,
    request: FileTransferRequest,
    extension: Option<Seq<char>>,
    under_allowed_path: bool,
) -> Result<(), TransferError> {
    match permissions {
        None => Err(TransferError::NoPermissions),
        Some(p) => if request.transfer_type == TransferType::Upload && !p.can_upload {
            Err(TransferError::UploadDenied)
        } else if request.transfer_type == TransferType::Download && !p.can_download {
            Err(TransferError::DownloadDenied)
        } else if (request.transfer_type == TransferType::Sync || request.transfer_type
            == TransferType::FolderSync) && !p.can_sync {
            Err(TransferError::SyncDenied)
        } else if request.file_size > p.max_file_size {
            Err(TransferError::FileTooLarge)
        } else if extension is Some && views_of(p.blocked_extensions@).contains(extension->0) {
            Err(TransferError::ExtensionBlocked)
        } else if p.allowed_paths@.len() > 0 && !under_allowed_path {
            Err(TransferError::PathDenied)
        } else {
            Ok(())
        },
    }
}

/// The permissions of a user, if any were set.
pub open spec fn permissions_of(
    table: Map<Seq<char>, TransferPermissions>,
    user_id: Seq<char>,
) -> Option<TransferPermissions> {
    if table.dom().contains(user_id) {
        Some(table[user_id])
    } else {
        None
    }
}

/// The speed that the samples show, in bytes per second: the bytes between
/// the first and the last sample over the seconds between them; 0 with
/// fewer than two samples or no time between them.
pub open spec fn speed_of(samples: Seq<(u64, u64)>) -> u64 {
    if samples.len() < 2 {
        0
    } else {
        let first = samples[0];
        let last = samples[samples.len() - 1];
        if last.0 > first.0 {
            let bytes = if last.1 >= first.1 {
                last.1 - first.1
            } else {
                0
            };
            (bytes / (last.0 - first.0)) as u64
        } else {
            0
        }
    }
}

/// The estimated time to completion, in seconds; 0 where no speed is
/// known.
pub open spec fn eta_of(file_size: u64, transferred: u64, speed: u64) -> u64 {
    if speed > 0 && file_size >= transferred {
        ((file_size - transferred) / (speed as int)) as u64
    } else {
        0
    }
}

/// The samples with one more, cut down to the last ten.
pub open spec fn with_sample(samples: Seq<(u64, u64)>, sample: (u64, u64)) -> Seq<(u64, u64)> {
    if samples.len() + 1 > SPEED_SAMPLES {
        samples.push(sample).drop_first()
    } else {
        samples.push(sample)
    }
}

/// The sum of two counts of bytes, held at the largest count.
pub open spec fn add_bytes(a: u64, b: int) -> u64 {
    if a + b <= u64::MAX {
        (a + b) as u64
    } else {
        u64::MAX
    }
}

/// Whether a transfer that was last active at `last_activity` is stale at
/// time `now`.
pub open spec fn is_stale(last_activity: u64, now: u64) -> bool {
    now >= last_activity && now - last_activity > TRANSFER_TIMEOUT
}

/// Whether a file is to be synchronised: the target is not there, or
/// differs in length, or is older than the source.
pub open spec fn sync_needed(
    target_exists: bool,
    source_len: u64,
    target_len: u64,
    source_modified: u64,
    target_modified: u64,
) -> bool {
    !target_exists || source_len != target_len || source_modified > target_modified
}

/// Whether a file is to be synchronised.
pub fn should_sync_file(
    target_exists: bool,
    source_len: u64,
    target_len: u64,
    source_modified: u64,
    target_modified: u64,
) -> (r: bool)
    ensures
        r == sync_needed(target_exists, source_len, target_len, source_modified, target_modified),
{
    !target_exists || source_len != target_len || source_modified > target_modified
}

/// The verdict on a request, from the user's permissions, the extension of
/// the file's name in lower case, and whether the file lies under one of
/// the allowed directories.
pub fn check_permissions_with(
    permissions: Option<&TransferPermissions>,
    request: &FileTransferRequest,
    extension: Option<&str>,
    under_allowed_path: bool,
) -> (r: Result<(), TransferError>)
    ensures
        r == permission_verdict(
            match permissions {
                Some(p) => Some(*p),
                None => None,
            },
            *request,
            match extension {
                Some(e) => Some(e@),
                None => None,
            },
            under_allowed_path,
        ),
{
    let p = match permissions {
        Some(p) => p,
        None => {
            return Err(TransferError::NoPermissions);
        },
    };
    match request.transfer_type {
        TransferType::Upload => {
            if !p.can_upload {
                return Err(TransferError::UploadDenied);
            }
        },
        TransferType::Download => {
            if !p.can_download {
                return Err(TransferError::DownloadDenied);
            }
        },
        TransferType::Sync => {
            if !p.can_sync {
                return Err(TransferError::SyncDenied);
            }
        },
        TransferType::FolderSync => {
            if !p.can_sync {
                return Err(TransferError::SyncDenied);
            }
        },
    }
    if request.file_size > p.max_file_size {
        return Err(TransferError::FileTooLarge);
    }
    match extension {
        Some(e) => {
            if contains_str(&p.blocked_extensions, e) {
                return Err(TransferError::ExtensionBlocked);
            }
        },
        None => {},
    }
    if p.allowed_paths.len() > 0 && !under_allowed_path {
        return Err(TransferError::PathDenied);
    }
    Ok(())
}

/// The speed that the samples show, in bytes per second.
pub fn calculate_speed(samples: &Vec<(u64, u64)>) -> (speed: u64)
    ensures
        speed == speed_of(samples@),
{
    if samples.len() < 2 {
        return 0;
    }
    let first = samples[0];
    let last = samples[samples.len() - 1];
    if last.0 > first.0 {
        let bytes = if last.1 >= first.1 {
            last.1 - first.1
        } else {
            0
        };
        bytes / (last.0 - first.0)
    } else {
        0
    }
}

/// The CRC-32 checksum of the data, in eight hexadecimal digits.
pub fn calculate_crc32(data: &[u8]) -> (sum: String)
    ensures
        sum@ == hex_of(crc32_of(data@) as nat, 8),
{
    hex_string(crc32(data) as u64, 8)
}

/// The SHA-256 digest of the data, in hexadecimal.
pub fn calculate_hash(data: &[u8]) -> (hash: String)
    ensures
        hash@ == hex_of_bytes(sha256_of(data@)),
{
    let digest = sha256(data);
    hex_bytes_string(digest.as_slice())
}

/// What is done with the file of a transfer that is complete, given the
/// digest of what was written.
pub fn verify_completion(request: &FileTransferRequest, temp: String, actual_hash: &str) -> (r:
    Result<Completion, TransferError>)
    ensures
        actual_hash@ == request.file_hash@ ==> r == Ok::<Completion, TransferError>(
            Completion::MoveIntoPlace { from: temp, to: request.file_path },
        ),
        actual_hash@ != request.file_hash@ ==> r == Err::<Completion, TransferError>(
            TransferError::HashMismatch,
        ),
{
    if str_eq(actual_hash, request.file_hash.as_str()) {
        Ok(Completion::MoveIntoPlace { from: temp, to: request.file_path.clone() })
    } else {
        Err(TransferError::HashMismatch)
    }
}

/// The name of the temporary file of a transfer: the transfer's identifier
/// with `.tmp` behind it.
pub fn temp_file_name(transfer_id: &str) -> (name: String)
    ensures
        name@ == transfer_id@ + ".tmp"@,
{
    let mut name = transfer_id.to_owned();
    name.append(".tmp");
    name
}

/// The transfers that are under way, and who may transfer what.
pub struct FileTransferManager {
    /// By transfer identifier.
    pub active_transfers: KeyedList<ActiveTransfer>,
    /// By user.
    pub transfer_permissions: KeyedList<TransferPermissions>,
    pub temp_dir: String,
    pub max_file_size: u64,
    pub allowed_extensions: Vec<String>,
}

/// The extensions that a new manager allows.
pub open spec fn default_extensions() -> Seq<Seq<char>> {
    seq![
        "txt"@,
        "pdf"@,
        "doc"@,
        "docx"@,
        "xls"@,
        "xlsx"@,
        "ppt"@,
        "pptx"@,
        "zip"@,
        "rar"@,
        "7z"@,
        "jpg"@,
        "jpeg"@,
        "png"@,
        "gif"@,
        "mp4"@,
        "avi"@,
        "mkv"@,
    ]
}

/// What a user's request to begin a transfer at time `now` comes to, given
/// the extension of the file's name in lower case and whether the file lies
/// under an allowed directory: a request that the permissions turn down
/// changes nothing, any other begins the transfer.
pub open spec fn start_verdict(
    before: FileTransferManager,
    after: FileTransferManager,
    user_id: Seq<char>,
    request: FileTransferRequest,
    now: u64,
    r: Result<TransferStart, TransferError>,
    extension: Option<Seq<char>>,
    under_allowed_path: bool,
) -> bool {
    match permission_verdict(
        permissions_of(before.transfer_permissions@, user_id),
        request,
        extension,
        under_allowed_path,
    ) {
        Err(e) => r == Err::<TransferStart, TransferError>(e) && after == before,
        Ok(()) => transfer_begun(before, after, request, now, r),
    }
}

/// What beginning a transfer at time `now` comes to: how the manager
/// stands after it to how it stood before, and what is handed out.
pub open spec fn transfer_begun(
    before: FileTransferManager,
    after: FileTransferManager,
    request: FileTransferRequest,
    now: u64,
    r: Result<TransferStart, TransferError>,
) -> bool {
    &&& after == (FileTransferManager {
                active_transfers: after.active_transfers,
                ..before
            })
    &&& match r {
                Err(e) => e == TransferError::TooManyTransfers && before.active_transfers.key_seq().len() >= MAX_CONCURRENT_TRANSFERS && after.active_transfers@ == before.active_transfers@,
                Ok(start) => {
                    let t = after.active_transfers@[start.transfer_id@];
                    &&& before.active_transfers.key_seq().len() < MAX_CONCURRENT_TRANSFERS
                    &&& request.transfer_id@.len() > 0 ==> start.transfer_id@
                        == request.transfer_id@
                    &&& request.transfer_id@.len() == 0 ==> start.transfer_id@.len()
                        == UUID_TEXT_LEN
                    &&& start.transfer_id@.len() > 0
                    &&& after.active_transfers@.dom() == before.active_transfers@.dom().insert(start.transfer_id@)
                    &&& forall|k: Seq<char>|
                        k != start.transfer_id@ && before.active_transfers@.dom().contains(k)
                            ==> after.active_transfers@[k] == before.active_transfers@[k]
                    &&& t.request == (FileTransferRequest {
                        transfer_id: t.request.transfer_id,
                        ..request
                    })
                    &&& t.request.transfer_id@ == start.transfer_id@
                    &&& t.has_file == (request.transfer_type == TransferType::Upload
                        || request.transfer_type == TransferType::Download)
                    &&& t.bytes_transferred == request.resume_from
                    &&& t.start_time == now
                    &&& t.last_activity == now
                    &&& t.chunks_received@.len() == 0
                    &&& t.speed_samples@.len() == 0
                    &&& match start.file {
                        FileAction::ResumeOrCreate { path, resume_from } => request.transfer_type
                            == TransferType::Upload && request.resume_from > 0 && resume_from
                            == request.resume_from,
                        FileAction::Create { path } => request.transfer_type
                            == TransferType::Upload && request.resume_from == 0,
                        FileAction::Read { path } => request.transfer_type
                            == TransferType::Download && path@ == request.file_path@,
                        FileAction::Nothing => request.transfer_type == TransferType::Sync
                            || request.transfer_type == TransferType::FolderSync,
                    }
                },
            }
}

impl FileTransferManager {
    /// The tables are well formed.
    pub open spec fn wf(&self) -> bool {
        self.active_transfers.wf() && self.transfer_permissions.wf()
    }

    /// A manager without transfers and permissions.
    pub fn new(temp_dir: String, max_file_size: u64) -> (m: Self)
        ensures
            m.wf(),
            m.active_transfers@ == Map::<Seq<char>, ActiveTransfer>::empty(),
            m.transfer_permissions@ == Map::<Seq<char>, TransferPermissions>::empty(),
            m.temp_dir == temp_dir,
            m.max_file_size == max_file_size,
            views_of(m.allowed_extensions@) == default_extensions(),
    {
        let mut allowed_extensions: Vec<String> = Vec::new();
        allowed_extensions.push("txt".to_string());
        allowed_extensions.push("pdf".to_string());
        allowed_extensions.push("doc".to_string());
        allowed_extensions.push("docx".to_string());
        allowed_extensions.push("xls".to_string());
        allowed_extensions.push("xlsx".to_string());
        allowed_extensions.push("ppt".to_string());
        allowed_extensions.push("pptx".to_string());
        allowed_extensions.push("zip".to_string());
        allowed_extensions.push("rar".to_string());
        allowed_extensions.push("7z".to_string());
        allowed_extensions.push("jpg".to_string());
        allowed_extensions.push("jpeg".to_string());
        allowed_extensions.push("png".to_string());
        allowed_extensions.push("gif".to_string());
        allowed_extensions.push("mp4".to_string());
        allowed_extensions.push("avi".to_string());
        allowed_extensions.push("mkv".to_string());
        assert(views_of(allowed_extensions@) =~= default_extensions());
        FileTransferManager {
            active_transfers: KeyedList::new(),
            transfer_permissions: KeyedList::new(),
            temp_dir,
            max_file_size,
            allowed_extensions,
        }
    }

    /// Sets what a user may transfer.
    pub fn set_user_permissions(&mut self, user_id: String, permissions: TransferPermissions)
        requires
            old(self).wf(),
        ensures
            final(self).wf(),
            *final(self) == (FileTransferManager {
                transfer_permissions: final(self).transfer_permissions,
                ..*old(self)
            }),
            final(self).transfer_permissions@ == old(self).transfer_permissions@.insert(
                user_id@,
                permissions,
            ),
    {
        self.transfer_permissions.put(user_id, permissions);
    }

    fn under_allowed_path(&self, permissions: &TransferPermissions, file_path: &str) -> (r: bool)
        ensures
            permissions.allowed_paths@.len() == 0 ==> !r,
    {
        let mut i: usize = 0;
        while i < permissions.allowed_paths.len()
            invariant
                i <= permissions.allowed_paths@.len(),
            decreases permissions.allowed_paths@.len() - i,
        {
            if path_starts_with(file_path, permissions.allowed_paths[i].as_str()) {
                return true;
            }
            i += 1;
        }
        false
    }

    /// The verdict on a user's request. The extension of the file's name
    /// and whether the file lies under an allowed directory are the
    /// platform's to say; the verdict is the one that follows from what it
    /// says.
    pub fn check_permissions(&self, user_id: &str, request: &FileTransferRequest) -> (r: Result<
        (),
        TransferError,
    >)
        requires
            self.wf(),
        ensures
            exists|extension: Option<Seq<char>>, under_allowed_path: bool|
                r == #[trigger] permission_verdict(
                    permissions_of(self.transfer_permissions@, user_id@),
                    *request,
                    extension,
                    under_allowed_path,
                ),
    {
        let permissions = self.transfer_permissions.get(user_id);
        let extension = match path_extension(request.file_path.as_str()) {
            Some(e) => Some(to_lowercase(e.as_str())),
            None => None,
        };
        let under = match permissions {
            Some(p) => self.under_allowed_path(p, request.file_path.as_str()),
            None => false,
        };
        let r = check_permissions_with(
            permissions,
            request,
            match &extension {
                Some(e) => Some(e.as_str()),
                None => None,
            },
            under,
        );
        proof {
            let ghost p = permissions_of(self.transfer_permissions@, user_id@);
            let ghost e = match extension {
                Some(e) => Some(e@),
                None => None,
            };
            assert(r == permission_verdict(p, *request, e, under));
        }
        r
    }

    /// Begins a transfer at time `now`, once the request has passed the
    /// check of the permissions: unless too many transfers are under way,
    /// the transfer is noted, under a new random identifier where the
    /// request brings none.
    pub fn begin_transfer(&mut self, request: FileTransferRequest, now: u64) -> (r: Result<
        TransferStart,
        TransferError,
    >)
        requires
            old(self).wf(),
        ensures
            final(self).wf(),
            transfer_begun(*old(self), *final(self), request, now, r),
    {
        if self.active_transfers.len() >= MAX_CONCURRENT_TRANSFERS {
            return Err(TransferError::TooManyTransfers);
        }
        let mut request = request;
        if request.transfer_id.as_str().is_empty() {
            request.transfer_id = new_uuid_v4();
        }
        let transfer_id = request.transfer_id.clone();
        let temp = self.temp_file_path(transfer_id.as_str());
        let file = match request.transfer_type {
            TransferType::Upload => {
                if request.resume_from > 0 {
                    FileAction::ResumeOrCreate { path: temp, resume_from: request.resume_from }
                } else {
                    FileAction::Create { path: temp }
                }
            },
            TransferType::Download => FileAction::Read { path: request.file_path.clone() },
            _ => FileAction::Nothing,
        };
        let has_file = match request.transfer_type {
            TransferType::Upload => true,
            TransferType::Download => true,
            _ => false,
        };
        let transfer = ActiveTransfer {
            bytes_transferred: request.resume_from,
            request,
            has_file,
            start_time: now,
            last_activity: now,
            chunks_received: Vec::new(),
            speed_samples: Vec::new(),
        };
        self.active_transfers.put(transfer_id.clone(), transfer);
        Ok(TransferStart { transfer_id, file })
    }

    /// Begins a transfer for a user at time `now`: the request goes through
    /// the check of the permissions first, and a request that does not
    /// pass leaves everything as it was.
    pub fn start_transfer(&mut self, user_id: &str, request: FileTransferRequest, now: u64) -> (r:
        Result<TransferStart, TransferError>)
        requires
            old(self).wf(),
        ensures
            final(self).wf(),
            exists|extension: Option<Seq<char>>, under_allowed_path: bool|
                #[trigger] start_verdict(
                    *old(self),
                    *final(self),
                    user_id@,
                    request,
                    now,
                    r,
                    extension,
                    under_allowed_path,
                ),
    {
        let ghost before = *self;
        let permissions = self.transfer_permissions.get(user_id);
        let extension = match path_extension(request.file_path.as_str()) {
            Some(e) => Some(to_lowercase(e.as_str())),
            None => None,
        };
        let under = match permissions {
            Some(p) => self.under_allowed_path(p, request.file_path.as_str()),
            None => false,
        };
        let verdict = check_permissions_with(
            permissions,
            &request,
            match &extension {
                Some(e) => Some(e.as_str()),
                None => None,
            },
            under,
        );
        let ghost e = match extension {
            Some(e) => Some(e@),
            None => None,
        };
        let r = match verdict {
            Ok(()) => self.begin_transfer(request, now),
            Err(e) => Err(e),
        };
        assert(start_verdict(before, *self, user_id@, request, now, r, e, under));
        r
    }

    /// Takes in a chunk at time `now`: the checksum is checked, the
    /// progress is noted, and the caller is told where to write the data.
    pub fn handle_chunk(&mut self, chunk: &FileChunk, now: u64) -> (r: Result<
        ChunkAction,
        TransferError,
    >)
        requires
            old(self).wf(),
        ensures
            final(self).wf(),
            *final(self) == (FileTransferManager {
                active_transfers: final(self).active_transfers,
                ..*old(self)
            }),
            ({
                let transfers = old(self).active_transfers@;
                let id = chunk.transfer_id@;
                if !transfers.dom().contains(id) {
                    r == Err::<ChunkAction, TransferError>(TransferError::TransferNotFound)
                        && final(self).active_transfers@ == transfers
                } else if hex_of(crc32_of(chunk.data@) as nat, 8) != chunk.checksum@ {
                    r == Err::<ChunkAction, TransferError>(TransferError::ChecksumMismatch)
                        && final(self).active_transfers@ == transfers
                } else if chunk.chunk_index * CHUNK_SIZE > u64::MAX {
                    r == Err::<ChunkAction, TransferError>(TransferError::ChunkOutOfRange)
                        && final(self).active_transfers@ == transfers
                } else {
                    let before = transfers[id];
                    let after = final(self).active_transfers@[id];
                    &&& r == Ok::<ChunkAction, TransferError>(
                        ChunkAction {
                            write_at: if before.has_file {
                                Some((chunk.chunk_index * CHUNK_SIZE) as u64)
                            } else {
                                None
                            },
                            complete: chunk.is_last,
                        },
                    )
                    &&& final(self).active_transfers@.dom() == transfers.dom()
                    &&& forall|k: Seq<char>|
                        k != id && transfers.dom().contains(k) ==> final(self).active_transfers@[k] == transfers[k]
                    &&& after.request == before.request
                    &&& after.has_file == before.has_file
                    &&& after.start_time == before.start_time
                    &&& after.last_activity == now
                    &&& after.bytes_transferred == add_bytes(
                        before.bytes_transferred,
                        chunk.data@.len() as int,
                    )
                    &&& after.chunks_received@ == if before.chunks_received@.contains(
                        chunk.chunk_index,
                    ) {
                        before.chunks_received@
                    } else {
                        before.chunks_received@.push(chunk.chunk_index)
                    }
                    &&& after.speed_samples@ == with_sample(
                        before.speed_samples@,
                        (now, after.bytes_transferred),
                    )
                }
            }),
    {
        let i = match self.active_transfers.position(chunk.transfer_id.as_str()) {
            Some(i) => i,
            None => {
                return Err(TransferError::TransferNotFound);
            },
        };
        let sum = calculate_crc32(chunk.data.as_slice());
        if !str_eq(sum.as_str(), chunk.checksum.as_str()) {
            return Err(TransferError::ChecksumMismatch);
        }
        let write_at = match chunk.chunk_index.checked_mul(CHUNK_SIZE as u64) {
            Some(p) => p,
            None => {
                return Err(TransferError::ChunkOutOfRange);
            },
        };
        proof {
            self.active_transfers.lemma_places();
        }
        let mut transfer = self.active_transfers.remove_at(i);
        let mut seen = false;
        let mut k: usize = 0;
        while k < transfer.chunks_received.len()
            invariant
                k <= transfer.chunks_received@.len(),
                seen == exists|j: int|
                    0 <= j < k && transfer.chunks_received@[j] == chunk.chunk_index,
            decreases transfer.chunks_received@.len() - k,
        {
            if transfer.chunks_received[k] == chunk.chunk_index {
                seen = true;
            }
            k += 1;
        }
        if !seen {
            transfer.chunks_received.push(chunk.chunk_index);
        }
        let size = chunk.data.len();
        transfer.bytes_transferred = if size as u64 <= u64::MAX - transfer.bytes_transferred {
            transfer.bytes_transferred + size as u64
        } else {
            u64::MAX
        };
        transfer.last_activity = now;
        transfer.speed_samples.push((now, transfer.bytes_transferred));
        if transfer.speed_samples.len() > SPEED_SAMPLES {
            transfer.speed_samples.remove(0);
            proof {
                let ghost before = old(self).active_transfers@[chunk.transfer_id@].speed_samples@;
                assert(transfer.speed_samples@ =~= before.push(
                    (now, transfer.bytes_transferred),
                ).drop_first());
            }
        }
        let has_file = transfer.has_file;
        self.active_transfers.put(chunk.transfer_id.clone(), transfer);
        proof {
            assert(final(self).active_transfers@.dom() =~= old(self).active_transfers@.dom());
        }
        Ok(
            ChunkAction {
                write_at: if has_file {
                    Some(write_at)
                } else {
                    None
                },
                complete: chunk.is_last,
            },
        )
    }

    /// Takes a transfer that is complete off the list, and returns what it
    /// was, for the check of the file.
    pub fn complete_transfer(&mut self, transfer_id: &str) -> (r: Option<ActiveTransfer>)
        requires
            old(self).wf(),
        ensures
            final(self).wf(),
            *final(self) == (FileTransferManager {
                active_transfers: final(self).active_transfers,
                ..*old(self)
            }),
            final(self).active_transfers@ == old(self).active_transfers@.remove(transfer_id@),
            match r {
                Some(t) => old(self).active_transfers@.dom().contains(transfer_id@) && t == old(self).active_transfers@[transfer_id@],
                None => !old(self).active_transfers@.dom().contains(transfer_id@),
            },
    {
        self.active_transfers.remove(transfer_id)
    }

    /// How far a transfer has come.
    pub fn get_progress(&self, transfer_id: &str) -> (r: Option<TransferProgress>)
        requires
            self.wf(),
        ensures
            match r {
                None => !self.active_transfers@.dom().contains(transfer_id@),
                Some(p) => {
                    let t = self.active_transfers@[transfer_id@];
                    &&& self.active_transfers@.dom().contains(transfer_id@)
                    &&& p.transfer_id@ == transfer_id@
                    &&& p.bytes_transferred == t.bytes_transferred
                    &&& p.total_bytes == t.request.file_size
                    &&& p.speed_bps == speed_of(t.speed_samples@)
                    &&& p.eta_seconds == eta_of(
                        t.request.file_size,
                        t.bytes_transferred,
                        speed_of(t.speed_samples@),
                    )
                    &&& p.status == TransferStatus::InProgress
                    &&& p.error_message is None
                },
            },
    {
        match self.active_transfers.get(transfer_id) {
            Some(t) => {
                let speed = calculate_speed(&t.speed_samples);
                let eta = if speed > 0 && t.request.file_size >= t.bytes_transferred {
                    (t.request.file_size - t.bytes_transferred) / speed
                } else {
                    0
                };
                Some(
                    TransferProgress {
                        transfer_id: transfer_id.to_owned(),
                        bytes_transferred: t.bytes_transferred,
                        total_bytes: t.request.file_size,
                        speed_bps: speed,
                        eta_seconds: eta,
                        status: TransferStatus::InProgress,
                        error_message: None,
                    },
                )
            },
            None => None,
        }
    }

    /// Pauses a transfer: it stays on the list.
    pub fn pause_transfer(&self, transfer_id: &str) -> (r: Result<(), TransferError>)
        requires
            self.wf(),
        ensures
            r == if self.active_transfers@.dom().contains(transfer_id@) {
                Ok::<(), TransferError>(())
            } else {
                Err::<(), TransferError>(TransferError::TransferNotFound)
            },
    {
        if self.active_transfers.contains_key(transfer_id) {
            Ok(())
        } else {
            Err(TransferError::TransferNotFound)
        }
    }

    /// The place of the temporary file of a transfer: the file of the
    /// transfer's temporary name in the directory for temporary files, as
    /// the platform joins the two.
    pub fn temp_file_path(&self, transfer_id: &str) -> (path: String) {
        let name = temp_file_name(transfer_id);
        path_join(self.temp_dir.as_str(), name.as_str())
    }

    /// Cancels a transfer, and returns the place of its temporary file,
    /// which is to be removed.
    pub fn cancel_transfer(&mut self, transfer_id: &str) -> (r: Result<String, TransferError>)
        requires
            old(self).wf(),
        ensures
            final(self).wf(),
            *final(self) == (FileTransferManager {
                active_transfers: final(self).active_transfers,
                ..*old(self)
            }),
            final(self).active_transfers@ == old(self).active_transfers@.remove(transfer_id@),
            r is Ok <==> old(self).active_transfers@.dom().contains(transfer_id@),
            r matches Err(e) ==> (e == TransferError::TransferNotFound),
    {
        match self.active_transfers.remove(transfer_id) {
            Some(_) => Ok(self.temp_file_path(transfer_id)),
            None => Err(TransferError::TransferNotFound),
        }
    }

    /// Whether a user may synchronise folders.
    pub fn check_sync_allowed(&self, user_id: &str) -> (r: Result<(), TransferError>)
        requires
            self.wf(),
        ensures
            r == if !self.transfer_permissions@.dom().contains(user_id@) {
                Err::<(), TransferError>(TransferError::NoSyncPermissions)
            } else if !self.transfer_permissions@[user_id@].can_sync {
                Err::<(), TransferError>(TransferError::FolderSyncDenied)
            } else {
                Ok::<(), TransferError>(())
            },
    {
        match self.transfer_permissions.get(user_id) {
            None => Err(TransferError::NoSyncPermissions),
            Some(p) => if p.can_sync {
                Ok(())
            } else {
                Err(TransferError::FolderSyncDenied)
            },
        }
    }

    /// Drops the transfers that are stale at time `now`, and returns their
    /// identifiers; their temporary files are to be removed.
    pub fn cleanup_expired_transfers(&mut self, now: u64) -> (removed: Vec<String>)
        requires
            old(self).wf(),
        ensures
            final(self).wf(),
            *final(self) == (FileTransferManager {
                active_transfers: final(self).active_transfers,
                ..*old(self)
            }),
            final(self).active_transfers@ == Map::new(
                |k: Seq<char>| old(self).active_transfers@.dom().contains(k) && !is_stale(
                    old(self).active_transfers@[k].last_activity,
                    now,
                ),
                |k: Seq<char>| old(self).active_transfers@[k],
            ),
            forall|k: Seq<char>|
                views_of(removed@).contains(k) <==> old(self).active_transfers@.dom().contains(k)
                    && is_stale(old(self).active_transfers@[k].last_activity, now),
    {
        let ghost transfers = self.active_transfers@;
        let mut removed: Vec<String> = Vec::new();
        let mut i: usize = 0;
        proof {
            self.active_transfers.lemma_places();
        }
        while i < self.active_transfers.len()
            invariant
                self.active_transfers.wf(),
                self.transfer_permissions.wf(),
                *self == (FileTransferManager {
                    active_transfers: self.active_transfers,
                    ..*old(self)
                }),
                transfers == old(self).active_transfers@,
                i <= self.active_transfers.key_seq().len(),
                forall|k: Seq<char>| #[trigger]
                    self.active_transfers@.dom().contains(k) ==> transfers.dom().contains(k)
                        && self.active_transfers@[k] == transfers[k],
                forall|k: Seq<char>|
                    transfers.dom().contains(k) && !is_stale(transfers[k].last_activity, now)
                        ==> #[trigger] self.active_transfers@.dom().contains(k),
                forall|j: int|
                    0 <= j < i ==> !is_stale(
                        (#[trigger] self.active_transfers.value_seq()[j]).last_activity,
                        now,
                    ),
                forall|k: Seq<char>|
                    views_of(removed@).contains(k) <==> transfers.dom().contains(k) && is_stale(
                        transfers[k].last_activity,
                        now,
                    ) && !self.active_transfers@.dom().contains(k),
            decreases self.active_transfers.key_seq().len() - i,
        {
            proof {
                self.active_transfers.lemma_places();
            }
            let last_activity = self.active_transfers.value_at(i).last_activity;
            if now >= last_activity && now - last_activity > TRANSFER_TIMEOUT {
                let ghost before = views_of(removed@);
                let ghost key = self.active_transfers.key_seq()[i as int];
                removed.push(self.active_transfers.key_at(i).to_owned());
                self.active_transfers.remove_at(i);
                proof {
                    assert(views_of(removed@) =~= before.push(key));
                    lemma_pushed_holds(before, key);
                }
            } else {
                i += 1;
            }
            proof {
                self.active_transfers.lemma_places();
            }
        }
        proof {
            self.active_transfers.lemma_places();
            assert forall|k: Seq<char>| #[trigger]
                self.active_transfers@.dom().contains(k) implies !is_stale(
                transfers[k].last_activity,
                now,
            ) by {
                let j = choose|j: int|
                    0 <= j < self.active_transfers.key_seq().len()
                        && self.active_transfers.key_seq()[j] == k;
                assert(self.active_transfers.value_seq()[j] == self.active_transfers@[k]);
            }
            assert(self.active_transfers@ =~= Map::new(
                |k: Seq<char>| transfers.dom().contains(k) && !is_stale(
                    transfers[k].last_activity,
                    now,
                ),
                |k: Seq<char>| transfers[k],
            ));
        }
        removed
    }
}

/// Packs and unpacks data as gzip.
pub struct FileCompressor;

impl FileCompressor {
    /// The data, packed.
    pub fn compress_data(data: &[u8]) -> (r: Result<Vec<u8>, TransferError>)
        ensures
            match r {
                Ok(packed) => gzip_of(data@) == Some(packed@),
                Err(e) => gzip_of(data@) is None && e == TransferError::Compression,
            },
    {
        match gzip(data) {
            Some(packed) => Ok(packed),
            None => Err(TransferError::Compression),
        }
    }

    /// The data that was packed.
    pub fn decompress_data(compressed: &[u8]) -> (r: Result<Vec<u8>, TransferError>)
        ensures
            match r {
                Ok(data) => gunzip_of(compressed@) == Some(data@),
                Err(e) => gunzip_of(compressed@) is None && e == TransferError::Compression,
            },
    {
        match gunzip(compressed) {
            Some(data) => Ok(data),
            None => Err(TransferError::Compression),
        }
    }
}

} // verus!
