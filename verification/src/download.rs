//! Downloads and stored files: tracking browser downloads and batches, and
//! the lifecycle of stored files grouped under references (size limits,
//! persistence, expiry and cleanup).

use vstd::prelude::*;
use vstd::string::*;
use std::path::PathBuf;
use crate::clock::{parse_u64, parse_u64_spec};
use crate::table::{Keyed, Table, to_map};
use crate::text::{decimal, owned, push_decimal, push_str, seq_lt, str_lt, u64_to_string, views};

verus! {

/// A request to trigger a download in a session.
#[derive(Debug, Clone)]
pub struct DownloadTriggerRequest {
    pub session: String,
    pub url: String,
    pub filename: Option<String>,
    /// Target directory under the storage root.
    pub directory: String,
    pub wait: bool,
    pub timeout_ms: u64,
}

/// Directory downloads go to unless told otherwise.
pub fn default_download_dir() -> (r: String)
    ensures
        r@ == "downloads"@,
{
    owned("downloads")
}

/// Download timeout unless told otherwise: five minutes.
pub fn default_download_timeout() -> (r: u64)
    ensures
        r == 300000,
{
    300000
}

/// The answer to a download trigger.
#[derive(Debug, Clone)]
pub struct DownloadTriggerResponse {
    pub success: bool,
    pub download_id: String,
    pub status: DownloadStatus,
    pub filename: Option<String>,
    pub file_path: Option<String>,
}

/// Status of a download.
#[derive(Debug, Clone, Copy, PartialEq, Eq, Structural)]
pub enum DownloadStatus {
    Pending,
    InProgress,
    Completed,
    Failed,
    Cancelled,
}

/// A completion fraction: `numerator / denominator` of the whole (the
/// percentage is a hundred times that).
#[derive(Debug, Clone, Copy, PartialEq, Eq, Structural)]
pub struct Fraction {
    pub numerator: u64,
    pub denominator: u64,
}

/// Progress of one download.
#[derive(Debug, Clone)]
pub struct DownloadProgress {
    pub download_id: String,
    pub status: DownloadStatus,
    pub url: String,
    pub filename: Option<String>,
    pub bytes_received: u64,
    pub total_bytes: Option<u64>,
    /// Fraction done, when known.
    pub percent: Option<Fraction>,
    pub eta_seconds: Option<u32>,
    pub error: Option<String>,
}

impl Keyed for DownloadProgress {
    open spec fn key_view(&self) -> Seq<char> {
        self.download_id@
    }

    fn key_str(&self) -> (r: &str) {
        self.download_id.as_str()
    }
}

/// A request to download several URLs.
#[derive(Debug, Clone)]
pub struct BatchDownloadRequest {
    pub session: String,
    pub urls: Vec<String>,
    pub parallel: u32,
    pub directory: String,
}

/// Parallel downloads of a batch unless told otherwise.
pub fn default_parallel() -> (r: u32)
    ensures
        r == 3,
{
    3
}

/// The answer to a batch request.
#[derive(Debug, Clone)]
pub struct BatchDownloadResponse {
    pub success: bool,
    pub batch_id: String,
    pub download_ids: Vec<String>,
    pub total: usize,
}

/// A batch: its id and the ids of its downloads.
#[derive(Debug, Clone)]
pub struct Batch {
    pub id: String,
    pub download_ids: Vec<String>,
}

impl Keyed for Batch {
    open spec fn key_view(&self) -> Seq<char> {
        self.id@
    }

    fn key_str(&self) -> (r: &str) {
        self.id.as_str()
    }
}

/// Storage limits; thresholds are fractions of the maximum in thousandths
/// (0.8 is 800).
#[derive(Debug)]
pub struct StorageConfig {
    pub data_path: PathBuf,
    pub max_storage_bytes: u64,
    pub max_file_size_bytes: u64,
    pub default_ttl_seconds: u64,
    pub warning_threshold: u32,
    pub critical_threshold: u32,
}

impl StorageConfig {
    /// The default limits for storage under `data_path`.
    pub fn with_data_path(data_path: PathBuf) -> (r: Self)
        ensures
            r.data_path == data_path,
            r.max_storage_bytes == 10737418240,
            r.max_file_size_bytes == 1073741824,
            r.default_ttl_seconds == 86400,
            r.warning_threshold == 800,
            r.critical_threshold == 950,
    {
        StorageConfig {
            data_path,
            max_storage_bytes: default_max_storage(),
            max_file_size_bytes: default_max_file_size(),
            default_ttl_seconds: default_ttl(),
            warning_threshold: default_warning_threshold(),
            critical_threshold: default_critical_threshold(),
        }
    }
}

/// Total storage allowed unless told otherwise: 10 GiB.
pub fn default_max_storage() -> (r: u64)
    ensures
        r == 10737418240,
{
    10737418240
}

/// Largest file allowed unless told otherwise: 1 GiB.
pub fn default_max_file_size() -> (r: u64)
    ensures
        r == 1073741824,
{
    1073741824
}

/// Lifetime of stored files unless told otherwise: 24 hours, in seconds.
pub fn default_ttl() -> (r: u64)
    ensures
        r == 86400,
{
    86400
}

/// Usage at which storage warns: 0.80, in thousandths.
pub fn default_warning_threshold() -> (r: u32)
    ensures
        r == 800,
{
    800
}

/// Usage at which storage is critical: 0.95, in thousandths.
pub fn default_critical_threshold() -> (r: u32)
    ensures
        r == 950,
{
    950
}

/// Cleanup removes only expired files unless told otherwise.
pub fn default_true() -> (r: bool)
    ensures
        r,
{
    true
}

/// Storage usage; `usage` is the used fraction of the maximum.
#[derive(Debug, Clone)]
pub struct StorageStatus {
    pub data_path: String,
    pub used_bytes: u64,
    pub max_bytes: u64,
    pub usage: Fraction,
    pub alert_level: AlertLevel,
    pub directories: Vec<(String, DirectoryInfo)>,
}

/// How full storage is.
#[derive(Debug, Clone, Copy, PartialEq, Eq, Structural)]
pub enum AlertLevel {
    Normal,
    Warning,
    Critical,
}

/// Usage of one directory.
#[derive(Debug, Clone)]
pub struct DirectoryInfo {
    pub path: String,
    pub file_count: u32,
    pub size_bytes: u64,
}

/// A cleanup request.
#[derive(Debug, Clone)]
pub struct CleanupRequest {
    pub expired_only: bool,
    pub directories: Vec<String>,
    pub dry_run: bool,
}

/// What a cleanup removed (or would remove, in a dry run).
#[derive(Debug, Clone)]
pub struct CleanupResponse {
    pub success: bool,
    pub files_deleted: u32,
    pub bytes_freed: u64,
    pub dry_run: bool,
    pub details: Vec<CleanupDetail>,
}

/// One file a cleanup removed.
#[derive(Debug, Clone)]
pub struct CleanupDetail {
    pub path: String,
    pub reason: String,
    pub size: u64,
}

/// Stored files grouped under one reference.
#[derive(Debug, Clone)]
pub struct FileRef {
    pub id: String,
    /// Creation, in whole seconds since the epoch (as text).
    pub created_at: String,
    /// Expiry in whole seconds since the epoch (as text), or `never`.
    pub expires_at: String,
    pub files: Vec<FileInfo>,
    pub total_size: u64,
    pub persistent: bool,
}

impl Keyed for FileRef {
    open spec fn key_view(&self) -> Seq<char> {
        self.id@
    }

    fn key_str(&self) -> (r: &str) {
        self.id.as_str()
    }
}

/// One stored file.
#[derive(Debug, Clone)]
pub struct FileInfo {
    pub filename: String,
    pub path: String,
    pub size: u64,
    pub mime_type: String,
    pub created_at: String,
}

/// A request to keep a reference's files.
#[derive(Debug, Clone)]
pub struct PersistRequest {
    pub file_ref: String,
    pub destination: Option<String>,
}

/// A request to extend a reference's lifetime.
#[derive(Debug, Clone)]
pub struct ExtendTtlRequest {
    pub file_ref: String,
    pub additional_seconds: u64,
}

// ---------------------------------------------------------------------------
// Time stamps of stored files
// ---------------------------------------------------------------------------

/// The current time in whole seconds since the epoch, as text.
pub fn chrono_now_iso8601() -> (r: String)
    ensures
        exists|t: u64| r@ == decimal(t as nat),
{
    u64_to_string(crate::clock::unix_now_secs())
}

/// `seconds` after the stamp `base` (a stamp that does not parse counts as
/// 0), the sum wrapping around as a release build's does.
pub open spec fn add_seconds_text(base: Seq<char>, seconds: u64) -> Seq<char> {
    let b: u64 = match parse_u64_spec(base) {
        Some(v) => v,
        None => 0,
    };
    decimal(vstd::wrapping::u64_specs::wrapping_add(b, seconds) as nat)
}

/// `seconds` after the stamp `base`.
pub fn chrono_add_seconds(base: &str, seconds: u64) -> (r: String)
    ensures
        r@ == add_seconds_text(base@, seconds),
{
    let base_secs: u64 = match parse_u64(base) {
        Some(v) => v,
        None => 0,
    };
    u64_to_string(base_secs.wrapping_add(seconds))
}

// ---------------------------------------------------------------------------
// Download manager
// ---------------------------------------------------------------------------

/// Tracks downloads and batches.
#[derive(Debug, Clone)]
pub struct DownloadManager {
    pub downloads: Table<DownloadProgress>,
    pub batches: Table<Batch>,
}

impl DownloadManager {
    /// Well-formedness of both tables.
    pub open spec fn wf(&self) -> bool {
        self.downloads.wf() && self.batches.wf()
    }

    /// No downloads, no batches.
    pub fn new() -> (r: Self)
        ensures
            r.wf(),
            r.downloads@ == Map::<Seq<char>, DownloadProgress>::empty(),
            r.batches@ == Map::<Seq<char>, Batch>::empty(),
    {
        DownloadManager { downloads: Table::new(), batches: Table::new() }
    }

    /// Starts tracking a download of `url` under a fresh random id: pending,
    /// nothing received.
    pub fn start_download(&mut self, url: &str, filename: Option<String>) -> (id: String)
        requires
            old(self).wf(),
        ensures
            final(self).wf(),
            final(self).batches == old(self).batches,
            final(self).downloads@.dom() == old(self).downloads@.dom().insert(id@),
            forall|k: Seq<char>| k != id@ && old(self).downloads@.contains_key(k) ==> final(self).downloads@[k] == old(self).downloads@[k],
            ({
                let d = final(self).downloads@[id@];
                &&& d.download_id@ == id@
                &&& d.status == DownloadStatus::Pending
                &&& d.url@ == url@
                &&& d.filename == filename
                &&& d.bytes_received == 0
                &&& d.total_bytes is None
                &&& d.percent is None
                &&& d.eta_seconds is None
                &&& d.error is None
            }),
    {
        let id = crate::ids::new_uuid_v4();
        let d = DownloadProgress {
            download_id: id.clone(),
            status: DownloadStatus::Pending,
            url: owned(url),
            filename,
            bytes_received: 0,
            total_bytes: None,
            percent: None,
            eta_seconds: None,
            error: None,
        };
        let _ = self.downloads.insert(d);
        assert(self.downloads@.dom() =~= old(self).downloads@.dom().insert(id@));
        id
    }

    /// Records progress of download `id` (nothing happens for an unknown
    /// id): in progress, bytes and total set, and the fraction done set when
    /// the total is known and positive (else kept).
    pub fn update_progress(&mut self, id: &str, bytes_received: u64, total_bytes: Option<u64>)
        requires
            old(self).wf(),
        ensures
            final(self).wf(),
            final(self).batches == old(self).batches,
            !old(self).downloads@.contains_key(id@) ==> final(self).downloads@ == old(self).downloads@,
            old(self).downloads@.contains_key(id@) ==> ({
                let o = old(self).downloads@[id@];
                let n = final(self).downloads@[id@];
                &&& final(self).downloads@ == old(self).downloads@.insert(id@, n)
                &&& n == DownloadProgress {
                    status: DownloadStatus::InProgress,
                    bytes_received,
                    total_bytes,
                    percent: match total_bytes {
                        Some(t) if t > 0 => Some(Fraction { numerator: bytes_received, denominator: t }),
                        _ => o.percent,
                    },
                    ..o
                }
            }),
    {
        match self.downloads.remove(id) {
            Some(mut d) => {
                d.bytes_received = bytes_received;
                d.total_bytes = total_bytes;
                d.status = DownloadStatus::InProgress;
                match total_bytes {
                    Some(t) => {
                        if t > 0 {
                            d.percent = Some(Fraction { numerator: bytes_received, denominator: t });
                        }
                    },
                    None => {},
                }
                let ghost n = d;
                let _ = self.downloads.insert(d);
                assert(self.downloads@ =~= old(self).downloads@.insert(id@, n));
            },
            None => {},
        }
    }

    /// Marks download `id` completed: fraction done one, and the file name
    /// replaced when one is given.
    pub fn complete_download(&mut self, id: &str, filename: Option<String>)
        requires
            old(self).wf(),
        ensures
            final(self).wf(),
            final(self).batches == old(self).batches,
            !old(self).downloads@.contains_key(id@) ==> final(self).downloads@ == old(self).downloads@,
            old(self).downloads@.contains_key(id@) ==> ({
                let o = old(self).downloads@[id@];
                let n = final(self).downloads@[id@];
                &&& final(self).downloads@ == old(self).downloads@.insert(id@, n)
                &&& n == DownloadProgress {
                    status: DownloadStatus::Completed,
                    percent: Some(Fraction { numerator: 1, denominator: 1 }),
                    filename: if filename is Some { filename } else { o.filename },
                    ..o
                }
            }),
    {
        match self.downloads.remove(id) {
            Some(mut d) => {
                d.status = DownloadStatus::Completed;
                d.percent = Some(Fraction { numerator: 1, denominator: 1 });
                if filename.is_some() {
                    d.filename = filename;
                }
                let ghost n = d;
                let _ = self.downloads.insert(d);
                assert(self.downloads@ =~= old(self).downloads@.insert(id@, n));
            },
            None => {},
        }
    }

    /// Marks download `id` failed with `error`.
    pub fn fail_download(&mut self, id: &str, error: &str)
        requires
            old(self).wf(),
        ensures
            final(self).wf(),
            final(self).batches == old(self).batches,
            !old(self).downloads@.contains_key(id@) ==> final(self).downloads@ == old(self).downloads@,
            old(self).downloads@.contains_key(id@) ==> ({
                let o = old(self).downloads@[id@];
                let n = final(self).downloads@[id@];
                &&& final(self).downloads@ == old(self).downloads@.insert(id@, n)
                &&& n.status == DownloadStatus::Failed
                &&& n.error matches Some(e) && e@ == error@
                &&& n == DownloadProgress { status: n.status, error: n.error, ..o }
            }),
    {
        match self.downloads.remove(id) {
            Some(mut d) => {
                d.status = DownloadStatus::Failed;
                d.error = Some(owned(error));
                let ghost n = d;
                let _ = self.downloads.insert(d);
                assert(self.downloads@ =~= old(self).downloads@.insert(id@, n));
            },
            None => {},
        }
    }

    /// The progress of download `id`.
    pub fn get_progress(&self, id: &str) -> (r: Option<&DownloadProgress>)
        requires
            self.wf(),
        ensures
            match r {
                Some(d) => self.downloads@.contains_key(id@) && *d == self.downloads@[id@],
                None => !self.downloads@.contains_key(id@),
            },
    {
        self.downloads.get(id)
    }

    /// Starts one download per URL under a fresh batch id; returns the batch
    /// id and the download ids, in URL order.  (Ids are random; a download
    /// id that repeats within the batch tracks its last URL.)
    pub fn create_batch(&mut self, urls: &[String]) -> (r: (String, Vec<String>))
        requires
            old(self).wf(),
        ensures
            final(self).wf(),
            r.1@.len() == urls@.len(),
            final(self).batches@.contains_key(r.0@),
            final(self).batches@[r.0@].download_ids@ == r.1@,
            forall|i: int| 0 <= i < urls@.len() ==> final(self).downloads@.contains_key((#[trigger] r.1@[i])@),
            forall|i: int| 0 <= i < urls@.len() && (forall|j: int| i < j < urls@.len() ==> r.1@[j]@ != (#[trigger] r.1@[i])@)
                ==> final(self).downloads@[r.1@[i]@].url@ == urls@[i]@,
    {
        let batch_id = crate::ids::new_uuid_v4();
        let mut download_ids: Vec<String> = Vec::new();
        let mut i: usize = 0;
        while i < urls.len()
            invariant
                self.wf(),
                i <= urls@.len(),
                download_ids@.len() == i,
                forall|k: int| 0 <= k < i ==> self.downloads@.contains_key((#[trigger] download_ids@[k])@),
                forall|k: int| 0 <= k < i && (forall|j: int| k < j < i ==> download_ids@[j]@ != (#[trigger] download_ids@[k])@)
                    ==> self.downloads@[download_ids@[k]@].url@ == urls@[k]@,
            decreases urls@.len() - i,
        {
            let ghost before = self.downloads@;
            let ghost prev = download_ids@;
            let id = self.start_download(urls[i].as_str(), None);
            download_ids.push(id.clone());
            proof {
                assert forall|k: int| 0 <= k < i + 1 implies self.downloads@.contains_key((#[trigger] download_ids@[k])@) by {
                    if k < i {
                        assert(download_ids@[k] == prev[k]);
                    }
                }
                assert forall|k: int| 0 <= k < i + 1 && (forall|j: int| k < j < i + 1 ==> download_ids@[j]@ != (#[trigger] download_ids@[k])@)
                    implies self.downloads@[download_ids@[k]@].url@ == urls@[k]@ by {
                    if k < i {
                        assert(download_ids@[k] == prev[k]);
                        assert(download_ids@[i as int]@ != download_ids@[k]@);
                        assert forall|j: int| k < j < i implies prev[j]@ != (#[trigger] prev[k])@ by {
                            assert(download_ids@[j] == prev[j]);
                        }
                        assert(self.downloads@[download_ids@[k]@] == before[download_ids@[k]@]);
                    }
                }
            }
            i = i + 1;
        }
        let ids_copy = crate::session_v2::clone_strings(&download_ids);
        let _ = self.batches.insert(Batch { id: batch_id.clone(), download_ids: ids_copy });
        (batch_id, download_ids)
    }
}

// ---------------------------------------------------------------------------
// Storage manager
// ---------------------------------------------------------------------------

/// `File reference '<id>' not found`.
pub open spec fn ref_not_found_message(id: Seq<char>) -> Seq<char> {
    "File reference '"@ + id + "' not found"@
}

/// `File size <size> exceeds maximum <max>`.
pub open spec fn too_large_message(size: nat, max: nat) -> Seq<char> {
    "File size "@ + decimal(size) + " exceeds maximum "@ + decimal(max)
}

/// The sum of the sizes of some references.
pub open spec fn sum_totals(refs: Seq<FileRef>) -> nat
    decreases refs.len(),
{
    if refs.len() == 0 { 0 } else { sum_totals(refs.drop_last()) + refs.last().total_size as nat }
}

/// Whether a reference has expired at the stamp `now`: it is not persistent
/// and its expiry, read as a number of seconds, lies before `now`, read the
/// same way; a stamp that does not read as a number never expires anything.
pub open spec fn ref_expired(r: FileRef, now: Seq<char>) -> bool {
    &&& !r.persistent
    &&& parse_u64_spec(r.expires_at@) matches Some(e)
    &&& parse_u64_spec(now) matches Some(n)
    &&& e < n
}

/// The files of the references expired at `now`, in order.
pub open spec fn expired_files(refs: Seq<FileRef>, now: Seq<char>) -> Seq<FileInfo>
    decreases refs.len(),
{
    if refs.len() == 0 {
        Seq::empty()
    } else {
        expired_files(refs.drop_last(), now) + (if ref_expired(refs.last(), now) { refs.last().files@ } else { Seq::empty() })
    }
}

/// The sum of the sizes of some files.
pub open spec fn sum_sizes(files: Seq<FileInfo>) -> nat
    decreases files.len(),
{
    if files.len() == 0 { 0 } else { sum_sizes(files.drop_last()) + files.last().size as nat }
}

/// File-lifecycle manager: references of stored files, their limits and
/// expiry.
#[derive(Debug)]
pub struct StorageManager {
    pub config: StorageConfig,
    pub file_refs: Table<FileRef>,
}

impl StorageManager {
    /// Well-formedness of the reference table.
    pub open spec fn wf(&self) -> bool {
        self.file_refs.wf()
    }

    /// A manager with `config` and no references.
    pub fn new(config: StorageConfig) -> (r: Self)
        ensures
            r.wf(),
            r.config == config,
            r.file_refs@ == Map::<Seq<char>, FileRef>::empty(),
    {
        StorageManager { config, file_refs: Table::new() }
    }

    /// Creates an empty, non-persistent reference under a fresh random id,
    /// expiring the default TTL after now; returns its id.
    pub fn create_file_ref(&mut self) -> (id: String)
        requires
            old(self).wf(),
        ensures
            final(self).wf(),
            final(self).config == old(self).config,
            final(self).file_refs@.dom() == old(self).file_refs@.dom().insert(id@),
            forall|k: Seq<char>| k != id@ && old(self).file_refs@.contains_key(k) ==> final(self).file_refs@[k] == old(self).file_refs@[k],
            ({
                let r = final(self).file_refs@[id@];
                &&& r.id@ == id@
                &&& exists|t: u64| r.created_at@ == decimal(t as nat)
                &&& r.expires_at@ == add_seconds_text(r.created_at@, old(self).config.default_ttl_seconds)
                &&& r.files@.len() == 0
                &&& r.total_size == 0
                &&& !r.persistent
            }),
    {
        let id = crate::ids::new_uuid_v4();
        let now = chrono_now_iso8601();
        let expires = chrono_add_seconds(now.as_str(), self.config.default_ttl_seconds);
        let r = FileRef {
            id: id.clone(),
            created_at: now,
            expires_at: expires,
            files: Vec::new(),
            total_size: 0,
            persistent: false,
        };
        let _ = self.file_refs.insert(r);
        assert(self.file_refs@.dom() =~= old(self).file_refs@.dom().insert(id@));
        id
    }

    /// Adds `file` to reference `ref_id`: the reference must exist and the
    /// file be no larger than the maximum file size; the reference's total
    /// grows by the file's size.
    pub fn add_file(&mut self, ref_id: &str, file: FileInfo) -> (r: Result<(), String>)
        requires
            old(self).wf(),
            old(self).file_refs@.contains_key(ref_id@) ==> old(self).file_refs@[ref_id@].total_size + file.size <= u64::MAX,
        ensures
            final(self).wf(),
            final(self).config == old(self).config,
            !old(self).file_refs@.contains_key(ref_id@) ==> (r matches Err(e) && e@ == ref_not_found_message(ref_id@)
                && final(self).file_refs@ == old(self).file_refs@),
            old(self).file_refs@.contains_key(ref_id@) && file.size > old(self).config.max_file_size_bytes
                ==> (r matches Err(e) && e@ == too_large_message(file.size as nat, old(self).config.max_file_size_bytes as nat)
                && final(self).file_refs@ == old(self).file_refs@),
            r is Ok <==> old(self).file_refs@.contains_key(ref_id@) && file.size <= old(self).config.max_file_size_bytes,
            r is Ok ==> ({
                let o = old(self).file_refs@[ref_id@];
                let n = final(self).file_refs@[ref_id@];
                &&& final(self).file_refs@ == old(self).file_refs@.insert(ref_id@, n)
                &&& n.total_size == o.total_size + file.size
                &&& n.files@ == o.files@.push(file)
                &&& n.id == o.id && n.created_at == o.created_at && n.expires_at == o.expires_at
                &&& n.persistent == o.persistent
            }),
    {
        let mut fr = match self.file_refs.remove(ref_id) {
            Some(fr) => fr,
            None => {
                let mut e = owned("File reference '");
                push_str(&mut e, ref_id);
                push_str(&mut e, "' not found");
                return Err(e);
            },
        };
        if file.size > self.config.max_file_size_bytes {
            let mut e = owned("File size ");
            push_decimal(&mut e, file.size);
            push_str(&mut e, " exceeds maximum ");
            push_decimal(&mut e, self.config.max_file_size_bytes);
            let _ = self.file_refs.insert(fr);
            assert(self.file_refs@ =~= old(self).file_refs@);
            return Err(e);
        }
        fr.total_size = fr.total_size + file.size;
        fr.files.push(file);
        let ghost n = fr;
        let _ = self.file_refs.insert(fr);
        assert(self.file_refs@ =~= old(self).file_refs@.insert(ref_id@, n));
        Ok(())
    }

    /// The reference with id `id`.
    pub fn get_file_ref(&self, id: &str) -> (r: Option<&FileRef>)
        requires
            self.wf(),
        ensures
            match r {
                Some(f) => self.file_refs@.contains_key(id@) && *f == self.file_refs@[id@],
                None => !self.file_refs@.contains_key(id@),
            },
    {
        self.file_refs.get(id)
    }

    /// Keeps reference `id` for good: persistent, expiring `never`.
    pub fn persist(&mut self, id: &str) -> (r: Result<(), String>)
        requires
            old(self).wf(),
        ensures
            final(self).wf(),
            final(self).config == old(self).config,
            !old(self).file_refs@.contains_key(id@) ==> (r matches Err(e) && e@ == ref_not_found_message(id@)
                && final(self).file_refs@ == old(self).file_refs@),
            old(self).file_refs@.contains_key(id@) ==> r is Ok && ({
                let o = old(self).file_refs@[id@];
                let n = final(self).file_refs@[id@];
                &&& final(self).file_refs@ == old(self).file_refs@.insert(id@, n)
                &&& n.persistent
                &&& n.expires_at@ == "never"@
                &&& n == FileRef { persistent: n.persistent, expires_at: n.expires_at, ..o }
            }),
    {
        let mut fr = match self.file_refs.remove(id) {
            Some(fr) => fr,
            None => {
                let mut e = owned("File reference '");
                push_str(&mut e, id);
                push_str(&mut e, "' not found");
                return Err(e);
            },
        };
        fr.persistent = true;
        fr.expires_at = owned("never");
        let ghost n = fr;
        let _ = self.file_refs.insert(fr);
        assert(self.file_refs@ =~= old(self).file_refs@.insert(id@, n));
        Ok(())
    }

    /// Extends reference `id` to expire `seconds` after the stamp `now`;
    /// a persistent reference keeps its expiry.  Returns the expiry.
    pub fn extend_ttl_at(&mut self, id: &str, seconds: u64, now: &str) -> (r: Result<String, String>)
        requires
            old(self).wf(),
        ensures
            final(self).wf(),
            final(self).config == old(self).config,
            !old(self).file_refs@.contains_key(id@) ==> (r matches Err(e) && e@ == ref_not_found_message(id@)
                && final(self).file_refs@ == old(self).file_refs@),
            old(self).file_refs@.contains_key(id@) && old(self).file_refs@[id@].persistent
                ==> (r matches Ok(x) && x == old(self).file_refs@[id@].expires_at && final(self).file_refs@ == old(self).file_refs@),
            old(self).file_refs@.contains_key(id@) && !old(self).file_refs@[id@].persistent ==> ({
                let o = old(self).file_refs@[id@];
                let n = final(self).file_refs@[id@];
                &&& r matches Ok(x) && x@ == add_seconds_text(now@, seconds)
                &&& final(self).file_refs@ == old(self).file_refs@.insert(id@, n)
                &&& n.expires_at@ == add_seconds_text(now@, seconds)
                &&& n == FileRef { expires_at: n.expires_at, ..o }
            }),
    {
        let mut fr = match self.file_refs.remove(id) {
            Some(fr) => fr,
            None => {
                let mut e = owned("File reference '");
                push_str(&mut e, id);
                push_str(&mut e, "' not found");
                return Err(e);
            },
        };
        if fr.persistent {
            let x = fr.expires_at.clone();
            let _ = self.file_refs.insert(fr);
            assert(self.file_refs@ =~= old(self).file_refs@);
            return Ok(x);
        }
        let new_expires = chrono_add_seconds(now, seconds);
        fr.expires_at = new_expires.clone();
        let ghost n = fr;
        let _ = self.file_refs.insert(fr);
        assert(self.file_refs@ =~= old(self).file_refs@.insert(id@, n));
        Ok(new_expires)
    }

    /// Extends reference `id` to expire `seconds` after now.
    pub fn extend_ttl(&mut self, id: &str, seconds: u64) -> (r: Result<String, String>)
        requires
            old(self).wf(),
        ensures
            final(self).wf(),
            final(self).config == old(self).config,
            !old(self).file_refs@.contains_key(id@) ==> (r matches Err(e) && e@ == ref_not_found_message(id@)
                && final(self).file_refs@ == old(self).file_refs@),
            old(self).file_refs@.contains_key(id@) && old(self).file_refs@[id@].persistent
                ==> (r matches Ok(x) && x == old(self).file_refs@[id@].expires_at && final(self).file_refs@ == old(self).file_refs@),
            old(self).file_refs@.contains_key(id@) && !old(self).file_refs@[id@].persistent ==> exists|t: u64| #![trigger decimal(t as nat)] ({
                let o = old(self).file_refs@[id@];
                let n = final(self).file_refs@[id@];
                &&& r matches Ok(x) && x@ == add_seconds_text(decimal(t as nat), seconds)
                &&& final(self).file_refs@ == old(self).file_refs@.insert(id@, n)
                &&& n.expires_at@ == add_seconds_text(decimal(t as nat), seconds)
                &&& n == FileRef { expires_at: n.expires_at, ..o }
            }),
    {
        let now = chrono_now_iso8601();
        self.extend_ttl_at(id, seconds, now.as_str())
    }

    /// Storage usage: the bytes of all references against the maximum, and
    /// the alert level (critical at or above the critical threshold, warning
    /// at or above the warning threshold).  With a maximum of zero, an empty
    /// store is normal and any used byte is critical.
    pub fn get_status(&self) -> (r: StorageStatus)
        requires
            self.wf(),
            sum_totals(self.file_refs.records()) <= u64::MAX,
        ensures
            r.used_bytes == sum_totals(self.file_refs.records()),
            r.max_bytes == self.config.max_storage_bytes,
            r.usage == (Fraction { numerator: r.used_bytes, denominator: r.max_bytes }),
            r.alert_level == (if r.max_bytes == 0 {
                if r.used_bytes == 0 { AlertLevel::Normal } else { AlertLevel::Critical }
            } else if r.used_bytes * 1000 >= self.config.critical_threshold * r.max_bytes {
                AlertLevel::Critical
            } else if r.used_bytes * 1000 >= self.config.warning_threshold * r.max_bytes {
                AlertLevel::Warning
            } else {
                AlertLevel::Normal
            }),
            r.directories@.len() == 0,
    {
        let data_path = crate::paths::path_display(&self.config.data_path);
        let refs = self.file_refs.values();
        let mut used: u64 = 0;
        let mut i: usize = 0;
        while i < refs.len()
            invariant
                i <= refs@.len(),
                sum_totals(refs@) <= u64::MAX,
                used == sum_totals(refs@.take(i as int)),
            decreases refs@.len() - i,
        {
            proof {
                assert(refs@.take(i + 1).drop_last() =~= refs@.take(i as int));
                lemma_sum_totals_prefix(refs@, i + 1);
            }
            used = used + refs[i].total_size;
            i = i + 1;
        }
        assert(refs@.take(i as int) =~= refs@);
        let max = self.config.max_storage_bytes;
        let used128 = used as u128;
        let max128 = max as u128;
        proof {
            let c = self.config.critical_threshold as u128;
            let w = self.config.warning_threshold as u128;
            assert(c * max128 <= 0xffff_ffff_u128 * 0xffff_ffff_ffff_ffff_u128) by (nonlinear_arith)
                requires c <= 0xffff_ffff_u128, max128 <= 0xffff_ffff_ffff_ffff_u128;
            assert(w * max128 <= 0xffff_ffff_u128 * 0xffff_ffff_ffff_ffff_u128) by (nonlinear_arith)
                requires w <= 0xffff_ffff_u128, max128 <= 0xffff_ffff_ffff_ffff_u128;
        }
        let alert_level = if max == 0 {
            if used == 0 { AlertLevel::Normal } else { AlertLevel::Critical }
        } else if used128 * 1000 >= (self.config.critical_threshold as u128) * max128 {
            AlertLevel::Critical
        } else if used128 * 1000 >= (self.config.warning_threshold as u128) * max128 {
            AlertLevel::Warning
        } else {
            AlertLevel::Normal
        };
        StorageStatus {
            data_path,
            used_bytes: used,
            max_bytes: max,
            usage: Fraction { numerator: used, denominator: max },
            alert_level,
            directories: Vec::new(),
        }
    }
}

/// The references of `m` not expired at `now`.
pub open spec fn unexpired(m: Map<Seq<char>, FileRef>, now: Seq<char>) -> Map<Seq<char>, FileRef> {
    Map::new(|k: Seq<char>| m.contains_key(k) && !ref_expired(m[k], now), |k: Seq<char>| m[k])
}

/// The expired files at `now` can be counted in 32 bits and their sizes
/// summed in 64 bits.
pub open spec fn cleanup_fits(refs: Seq<FileRef>, now: Seq<char>) -> bool {
    expired_files(refs, now).len() <= u32::MAX && sum_sizes(expired_files(refs, now)) <= u64::MAX
}

/// A cleanup report lists the files `files`, each removed as expired.
pub open spec fn reports_files(details: Seq<CleanupDetail>, files: Seq<FileInfo>) -> bool {
    details.len() == files.len() && forall|j: int| 0 <= j < files.len() ==> {
        &&& (#[trigger] details[j]).path == files[j].path
        &&& details[j].reason@ == "expired"@
        &&& details[j].size == files[j].size
    }
}

impl StorageManager {
    /// Removes the references expired at the stamp `now` (see
    /// `ref_expired`) and reports their files; a dry run reports the same
    /// and removes nothing.
    pub fn cleanup_expired_at(&mut self, dry_run: bool, now: &str) -> (r: CleanupResponse)
        requires
            old(self).wf(),
            cleanup_fits(old(self).file_refs.records(), now@),
        ensures
            final(self).wf(),
            final(self).config == old(self).config,
            r.success,
            r.dry_run == dry_run,
            r.files_deleted == expired_files(old(self).file_refs.records(), now@).len(),
            r.bytes_freed == sum_sizes(expired_files(old(self).file_refs.records(), now@)),
            reports_files(r.details@, expired_files(old(self).file_refs.records(), now@)),
            dry_run ==> final(self).file_refs@ == old(self).file_refs@,
            !dry_run ==> final(self).file_refs@ == unexpired(old(self).file_refs@, now@),
    {
        let ghost m0 = self.file_refs@;
        let now_secs = parse_u64(now);
        let refs = self.file_refs.values();
        let ghost rs = refs@;
        let mut ids: Vec<String> = Vec::new();
        let mut details: Vec<CleanupDetail> = Vec::new();
        let mut files_deleted: u32 = 0;
        let mut bytes_freed: u64 = 0;
        let mut i: usize = 0;
        while i < refs.len()
            invariant
                rs == refs@,
                now_secs == parse_u64_spec(now@),
                i <= rs.len(),
                expired_files(rs, now@).len() <= u32::MAX,
                sum_sizes(expired_files(rs, now@)) <= u64::MAX,
                files_deleted == expired_files(rs.take(i as int), now@).len(),
                bytes_freed == sum_sizes(expired_files(rs.take(i as int), now@)),
                reports_files(details@, expired_files(rs.take(i as int), now@)),
                forall|k: Seq<char>| #[trigger] views(ids@).contains(k) <==> exists|q: int| 0 <= q < i && rs[q].id@ == k && ref_expired(rs[q], now@),
            decreases rs.len() - i,
        {
            let fr = &refs[i];
            proof {
                assert(rs.take(i + 1).drop_last() =~= rs.take(i as int));
                lemma_expired_prefix(rs, i + 1, now@);
            }
            let expired = !fr.persistent && match (parse_u64(fr.expires_at.as_str()), now_secs) {
                (Some(e), Some(n)) => e < n,
                _ => false,
            };
            let ghost prev_ids = ids@;
            if expired {
                let mut j: usize = 0;
                let ghost base = expired_files(rs.take(i as int), now@);
                while j < fr.files.len()
                    invariant
                        rs == refs@,
                        i < rs.len(),
                        *fr == rs[i as int],
                        ref_expired(rs[i as int], now@),
                        base == expired_files(rs.take(i as int), now@),
                        expired_files(rs.take(i + 1), now@) == base + rs[i as int].files@,
                        expired_files(rs.take(i + 1), now@).len() <= u32::MAX,
                        sum_sizes(expired_files(rs.take(i + 1), now@)) <= u64::MAX,
                        j <= fr.files@.len(),
                        files_deleted == (base + fr.files@.take(j as int)).len(),
                        bytes_freed == sum_sizes(base + fr.files@.take(j as int)),
                        reports_files(details@, base + fr.files@.take(j as int)),
                    decreases fr.files@.len() - j,
                {
                    let f = &fr.files[j];
                    proof {
                        assert((base + fr.files@.take(j + 1)).drop_last() =~= base + fr.files@.take(j as int));
                        lemma_sum_sizes_prefix(expired_files(rs.take(i + 1), now@), base.len() + j + 1);
                        assert(expired_files(rs.take(i + 1), now@).take(base.len() + j + 1) =~= base + fr.files@.take(j + 1));
                    }
                    details.push(CleanupDetail { path: f.path.clone(), reason: owned("expired"), size: f.size });
                    bytes_freed = bytes_freed + f.size;
                    files_deleted = files_deleted + 1;
                    j = j + 1;
                }
                assert(fr.files@.take(j as int) =~= fr.files@);
                ids.push(fr.id.clone());
            }
            proof {
                assert forall|k: Seq<char>| #[trigger] views(ids@).contains(k) <==> exists|q: int| 0 <= q < i + 1 && rs[q].id@ == k && ref_expired(rs[q], now@) by {
                    if views(ids@).contains(k) {
                        let w = choose|w: int| 0 <= w < views(ids@).len() && #[trigger] views(ids@)[w] == k;
                        if w < prev_ids.len() {
                            assert(views(prev_ids)[w] == k);
                            assert(views(prev_ids).contains(k));
                        } else {
                            assert(rs[i as int].id@ == k);
                        }
                    }
                    if exists|q: int| 0 <= q < i + 1 && rs[q].id@ == k && ref_expired(rs[q], now@) {
                        let q = choose|q: int| 0 <= q < i + 1 && rs[q].id@ == k && ref_expired(rs[q], now@);
                        if q < i {
                            assert(views(prev_ids).contains(k));
                            let w = choose|w: int| 0 <= w < views(prev_ids).len() && #[trigger] views(prev_ids)[w] == k;
                            assert(views(ids@)[w] == k);
                        } else {
                            assert(views(ids@)[ids@.len() - 1] == k);
                        }
                    }
                }
                if !expired {
                    assert(expired_files(rs.take(i + 1), now@) =~= expired_files(rs.take(i as int), now@));
                }
            }
            i = i + 1;
        }
        assert(rs.take(i as int) =~= rs);
        if !dry_run {
            let mut j: usize = 0;
            while j < ids.len()
                invariant
                    self.wf(),
                    self.config == old(self).config,
                    j <= ids@.len(),
                    forall|k: Seq<char>| #[trigger] self.file_refs@.contains_key(k) <==> (m0.contains_key(k) && !views(ids@.take(j as int)).contains(k)),
                    forall|k: Seq<char>| self.file_refs@.contains_key(k) ==> #[trigger] self.file_refs@[k] == m0[k],
                decreases ids@.len() - j,
            {
                let ghost before = self.file_refs@;
                let _ = self.file_refs.remove(ids[j].as_str());
                proof {
                    assert forall|k: Seq<char>| #[trigger] views(ids@.take(j + 1)).contains(k) <==> (views(ids@.take(j as int)).contains(k) || k == ids@[j as int]@) by {
                        if views(ids@.take(j + 1)).contains(k) {
                            let w = choose|w: int| 0 <= w < views(ids@.take(j + 1)).len() && #[trigger] views(ids@.take(j + 1))[w] == k;
                            if w < j {
                                assert(views(ids@.take(j as int))[w] == k);
                            }
                        }
                        if views(ids@.take(j as int)).contains(k) {
                            let w = choose|w: int| 0 <= w < views(ids@.take(j as int)).len() && #[trigger] views(ids@.take(j as int))[w] == k;
                            assert(views(ids@.take(j + 1))[w] == k);
                        }
                        if k == ids@[j as int]@ {
                            assert(views(ids@.take(j + 1))[j as int] == k);
                        }
                    }
                }
                j = j + 1;
            }
            proof {
                assert(ids@.take(j as int) =~= ids@);
                self.file_refs.lemma_view();
                assert forall|k: Seq<char>| m0.contains_key(k) implies (views(ids@).contains(k) <==> ref_expired(#[trigger] m0[k], now@)) by {
                    crate::table::lemma_key_index(rs, crate::table::key_index(rs, k));
                    if views(ids@).contains(k) {
                        let q = choose|q: int| 0 <= q < rs.len() && rs[q].id@ == k && ref_expired(rs[q], now@);
                        crate::table::lemma_key_index(rs, q);
                    }
                    if ref_expired(m0[k], now@) {
                        let q = crate::table::key_index(rs, k);
                        assert(rs[q].id@ == k);
                    }
                }
                assert(self.file_refs@ =~= unexpired(m0, now@));
            }
        }
        CleanupResponse { success: true, files_deleted, bytes_freed, dry_run, details }
    }

    /// Removes the references expired now and reports their files.
    pub fn cleanup_expired(&mut self, dry_run: bool) -> (r: CleanupResponse)
        requires
            old(self).wf(),
            forall|now: Seq<char>| #[trigger] cleanup_fits(old(self).file_refs.records(), now),
        ensures
            final(self).wf(),
            final(self).config == old(self).config,
            r.success,
            r.dry_run == dry_run,
            dry_run ==> final(self).file_refs@ == old(self).file_refs@,
            exists|t: u64| {
                let now = #[trigger] decimal(t as nat);
                &&& r.files_deleted == expired_files(old(self).file_refs.records(), now).len()
                &&& r.bytes_freed == sum_sizes(expired_files(old(self).file_refs.records(), now))
                &&& reports_files(r.details@, expired_files(old(self).file_refs.records(), now))
                &&& (!dry_run ==> final(self).file_refs@ == unexpired(old(self).file_refs@, now))
            },
    {
        let now = chrono_now_iso8601();
        assert(cleanup_fits(self.file_refs.records(), now@));
        self.cleanup_expired_at(dry_run, now.as_str())
    }
}

/// The expired files of a prefix come first among those of the whole.
proof fn lemma_expired_prefix(refs: Seq<FileRef>, k: int, now: Seq<char>)
    requires
        0 <= k <= refs.len(),
    ensures
        expired_files(refs.take(k), now).len() <= expired_files(refs, now).len(),
        sum_sizes(expired_files(refs.take(k), now)) <= sum_sizes(expired_files(refs, now)),
        expired_files(refs.take(k), now) == expired_files(refs, now).take(expired_files(refs.take(k), now).len() as int),
    decreases refs.len() - k,
{
    if k < refs.len() {
        lemma_expired_prefix(refs, k + 1, now);
        assert(refs.take(k + 1).drop_last() =~= refs.take(k));
        let a = expired_files(refs.take(k), now);
        let b = expired_files(refs.take(k + 1), now);
        let whole = expired_files(refs, now);
        assert(b.take(a.len() as int) =~= a);
        assert(whole.take(a.len() as int) =~= b.take(a.len() as int));
        lemma_sum_sizes_prefix(b, a.len() as int);
    } else {
        assert(refs.take(k) =~= refs);
        assert(expired_files(refs, now).take(expired_files(refs, now).len() as int) =~= expired_files(refs, now));
    }
}

/// A prefix's sum of sizes is no larger than the whole's.
proof fn lemma_sum_sizes_prefix(files: Seq<FileInfo>, k: int)
    requires
        0 <= k <= files.len(),
    ensures
        sum_sizes(files.take(k)) <= sum_sizes(files),
    decreases files.len() - k,
{
    if k < files.len() {
        lemma_sum_sizes_prefix(files, k + 1);
        assert(files.take(k + 1).drop_last() =~= files.take(k));
    } else {
        assert(files.take(k) =~= files);
    }
}

/// A prefix's total is no larger than the whole's.
proof fn lemma_sum_totals_prefix(refs: Seq<FileRef>, k: int)
    requires
        0 <= k <= refs.len(),
    ensures
        sum_totals(refs.take(k)) <= sum_totals(refs),
    decreases refs.len() - k,
{
    if k < refs.len() {
        lemma_sum_totals_prefix(refs, k + 1);
        assert(refs.take(k + 1).drop_last() =~= refs.take(k));
    } else {
        assert(refs.take(k) =~= refs);
    }
}


// ---------------------------------------------------------------------------
// Laws
// ---------------------------------------------------------------------------

/// A persistent reference is never removed by a cleanup, whatever the time.
pub proof fn law_persistent_survives_cleanup(m: Map<Seq<char>, FileRef>, now: Seq<char>, id: Seq<char>)
    requires
        m.contains_key(id),
        m[id].persistent,
    ensures
        unexpired(m, now).contains_key(id),
        unexpired(m, now)[id] == m[id],
{
}

/// Cleaning up twice at the same time removes nothing more than once.
pub proof fn law_cleanup_idempotent(m: Map<Seq<char>, FileRef>, now: Seq<char>)
    ensures
        unexpired(unexpired(m, now), now) == unexpired(m, now),
{
    assert(unexpired(unexpired(m, now), now) =~= unexpired(m, now));
}

/// What a cleanup keeps is exactly what has not expired: every kept
/// reference is unexpired, and every unexpired reference is kept.
pub proof fn law_cleanup_keeps_unexpired(m: Map<Seq<char>, FileRef>, now: Seq<char>, id: Seq<char>)
    ensures
        unexpired(m, now).contains_key(id) <==> (m.contains_key(id) && !ref_expired(m[id], now)),
{
}

} // verus!
