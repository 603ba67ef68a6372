//! Asynchronous jobs, webhook notifications, batch requests and event
//! messages.  JSON payloads are carried as JSON text.

use vstd::prelude::*;
use vstd::string::*;
use crate::table::{Keyed, Table, to_map};
use crate::text::{decimal, owned, push_char, push_str};
use std::hash::{Hash, Hasher};

verus! {

/// Status of a job.
#[derive(Debug, Clone, Copy, PartialEq, Eq, Structural)]
pub enum JobStatus {
    Pending,
    Running,
    Completed,
    Failed,
    Cancelled,
}

/// Kind of a job.
#[derive(Debug, Clone, PartialEq, Eq)]
pub enum JobType {
    Download,
    Extract,
    AiAnalysis,
    Screenshot,
    Batch,
    Custom(String),
}

/// A job; `result` is JSON text.
#[derive(Debug, Clone)]
pub struct Job {
    pub id: String,
    pub job_type: JobType,
    pub status: JobStatus,
    pub created_at: String,
    pub started_at: Option<String>,
    pub completed_at: Option<String>,
    /// Progress 0-100.
    pub percent: Option<u8>,
    pub eta_seconds: Option<u32>,
    pub result: Option<String>,
    pub error: Option<String>,
    pub webhook: Option<WebhookConfig>,
}

impl Keyed for Job {
    open spec fn key_view(&self) -> Seq<char> {
        self.id@
    }

    fn key_str(&self) -> (r: &str) {
        self.id.as_str()
    }
}

/// The answer to a job query.
#[derive(Debug, Clone)]
pub struct JobResponse {
    pub success: bool,
    pub job: Job,
}

/// The current time in whole seconds since the epoch, as text.
pub fn chrono_now_iso8601() -> (r: String)
    ensures
        is_secs_stamp(r@),
{
    crate::text::u64_to_string(crate::clock::unix_now_secs())
}

/// `s` is a time in whole seconds since the epoch, as text.
pub open spec fn is_secs_stamp(s: Seq<char>) -> bool {
    exists|t: u64| s == decimal(t as nat)
}

/// `Some` stamp of some instant.
pub open spec fn stamped(o: Option<String>) -> bool {
    o matches Some(s) && is_secs_stamp(s@)
}

/// Manages jobs by id.
#[derive(Debug, Clone)]
pub struct JobManager {
    pub jobs: Table<Job>,
}

impl JobManager {
    /// Well-formedness of the job table.
    pub open spec fn wf(&self) -> bool {
        self.jobs.wf()
    }

    /// No jobs.
    pub fn new() -> (r: Self)
        ensures
            r.wf(),
            r.jobs@ == Map::<Seq<char>, Job>::empty(),
    {
        JobManager { jobs: Table::new() }
    }

    /// Creates a pending job at zero percent under a fresh random id.
    pub fn create_job(&mut self, job_type: JobType, webhook: Option<WebhookConfig>) -> (id: String)
        requires
            old(self).wf(),
        ensures
            final(self).wf(),
            final(self).jobs@.dom() == old(self).jobs@.dom().insert(id@),
            forall|k: Seq<char>| k != id@ && old(self).jobs@.contains_key(k) ==> final(self).jobs@[k] == old(self).jobs@[k],
            ({
                let j = final(self).jobs@[id@];
                &&& j.id@ == id@
                &&& j.job_type == job_type
                &&& j.status == JobStatus::Pending
                &&& is_secs_stamp(j.created_at@)
                &&& j.started_at is None && j.completed_at is None
                &&& j.percent == Some(0u8)
                &&& j.eta_seconds is None && j.result is None && j.error is None
                &&& j.webhook == webhook
            }),
    {
        let id = crate::ids::new_uuid_v4();
        let job = Job {
            id: id.clone(),
            job_type,
            status: JobStatus::Pending,
            created_at: chrono_now_iso8601(),
            started_at: None,
            completed_at: None,
            percent: Some(0),
            eta_seconds: None,
            result: None,
            error: None,
            webhook,
        };
        let _ = self.jobs.insert(job);
        assert(self.jobs@.dom() =~= old(self).jobs@.dom().insert(id@));
        id
    }

    /// Marks job `id` running and stamps its start.
    pub fn start_job(&mut self, id: &str)
        requires
            old(self).wf(),
        ensures
            final(self).wf(),
            !old(self).jobs@.contains_key(id@) ==> final(self).jobs@ == old(self).jobs@,
            old(self).jobs@.contains_key(id@) ==> ({
                let o = old(self).jobs@[id@];
                let n = final(self).jobs@[id@];
                &&& final(self).jobs@ == old(self).jobs@.insert(id@, n)
                &&& n.status == JobStatus::Running
                &&& stamped(n.started_at)
                &&& n == Job { status: n.status, started_at: n.started_at, ..o }
            }),
    {
        if let Some(mut job) = self.jobs.remove(id) {
            job.status = JobStatus::Running;
            job.started_at = Some(chrono_now_iso8601());
            let ghost n = job;
            let _ = self.jobs.insert(job);
            assert(self.jobs@ =~= old(self).jobs@.insert(id@, n));
        }
    }

    /// Records the progress of job `id`.
    pub fn update_progress(&mut self, id: &str, percent: u8, eta_seconds: Option<u32>)
        requires
            old(self).wf(),
        ensures
            final(self).wf(),
            !old(self).jobs@.contains_key(id@) ==> final(self).jobs@ == old(self).jobs@,
            old(self).jobs@.contains_key(id@) ==> final(self).jobs@ == old(self).jobs@.insert(id@,
                Job { percent: Some(percent), eta_seconds, ..old(self).jobs@[id@] }),
    {
        if let Some(mut job) = self.jobs.remove(id) {
            job.percent = Some(percent);
            job.eta_seconds = eta_seconds;
            let ghost n = job;
            let _ = self.jobs.insert(job);
            assert(self.jobs@ =~= old(self).jobs@.insert(id@, n));
        }
    }

    /// Marks job `id` completed with `result` (JSON text): done at 100
    /// percent, completion stamped.
    pub fn complete_job(&mut self, id: &str, result: String)
        requires
            old(self).wf(),
        ensures
            final(self).wf(),
            !old(self).jobs@.contains_key(id@) ==> final(self).jobs@ == old(self).jobs@,
            old(self).jobs@.contains_key(id@) ==> ({
                let o = old(self).jobs@[id@];
                let n = final(self).jobs@[id@];
                &&& final(self).jobs@ == old(self).jobs@.insert(id@, n)
                &&& n.status == JobStatus::Completed
                &&& stamped(n.completed_at)
                &&& n == Job {
                    status: n.status,
                    completed_at: n.completed_at,
                    percent: Some(100u8),
                    eta_seconds: None,
                    result: Some(result),
                    ..o
                }
            }),
    {
        if let Some(mut job) = self.jobs.remove(id) {
            job.status = JobStatus::Completed;
            job.completed_at = Some(chrono_now_iso8601());
            job.percent = Some(100);
            job.eta_seconds = None;
            job.result = Some(result);
            let ghost n = job;
            let _ = self.jobs.insert(job);
            assert(self.jobs@ =~= old(self).jobs@.insert(id@, n));
        }
    }

    /// Marks job `id` failed with `error`, completion stamped.
    pub fn fail_job(&mut self, id: &str, error: &str)
        requires
            old(self).wf(),
        ensures
            final(self).wf(),
            !old(self).jobs@.contains_key(id@) ==> final(self).jobs@ == old(self).jobs@,
            old(self).jobs@.contains_key(id@) ==> ({
                let o = old(self).jobs@[id@];
                let n = final(self).jobs@[id@];
                &&& final(self).jobs@ == old(self).jobs@.insert(id@, n)
                &&& n.status == JobStatus::Failed
                &&& stamped(n.completed_at)
                &&& n.error matches Some(e) && e@ == error@
                &&& n == Job { status: n.status, completed_at: n.completed_at, error: n.error, ..o }
            }),
    {
        if let Some(mut job) = self.jobs.remove(id) {
            job.status = JobStatus::Failed;
            job.completed_at = Some(chrono_now_iso8601());
            job.error = Some(owned(error));
            let ghost n = job;
            let _ = self.jobs.insert(job);
            assert(self.jobs@ =~= old(self).jobs@.insert(id@, n));
        }
    }

    /// Cancels job `id` if it is pending or running; returns whether it did.
    pub fn cancel_job(&mut self, id: &str) -> (r: bool)
        requires
            old(self).wf(),
        ensures
            final(self).wf(),
            r <==> old(self).jobs@.contains_key(id@) && (old(self).jobs@[id@].status == JobStatus::Pending
                || old(self).jobs@[id@].status == JobStatus::Running),
            !r ==> final(self).jobs@ == old(self).jobs@,
            r ==> ({
                let o = old(self).jobs@[id@];
                let n = final(self).jobs@[id@];
                &&& final(self).jobs@ == old(self).jobs@.insert(id@, n)
                &&& n.status == JobStatus::Cancelled
                &&& stamped(n.completed_at)
                &&& n == Job { status: n.status, completed_at: n.completed_at, ..o }
            }),
    {
        if let Some(mut job) = self.jobs.remove(id) {
            if job.status == JobStatus::Pending || job.status == JobStatus::Running {
                job.status = JobStatus::Cancelled;
                job.completed_at = Some(chrono_now_iso8601());
                let ghost n = job;
                let _ = self.jobs.insert(job);
                assert(self.jobs@ =~= old(self).jobs@.insert(id@, n));
                return true;
            }
            let _ = self.jobs.insert(job);
            assert(self.jobs@ =~= old(self).jobs@);
        }
        false
    }

    /// The job with id `id`.
    pub fn get_job(&self, id: &str) -> (r: Option<&Job>)
        requires
            self.wf(),
        ensures
            match r {
                Some(j) => self.jobs@.contains_key(id@) && *j == self.jobs@[id@],
                None => !self.jobs@.contains_key(id@),
            },
    {
        self.jobs.get(id)
    }

    /// The jobs with the given status (all jobs when `status` is `None`),
    /// in storage order.
    pub fn list_jobs(&self, status: Option<JobStatus>) -> (r: Vec<&Job>)
        requires
            self.wf(),
        ensures
            r@.len() == self.jobs.records().filter(|j: Job| status matches Some(s) ==> j.status == s).len(),
            forall|i: int| 0 <= i < r@.len() ==> *r@[i] == self.jobs.records().filter(|j: Job| status matches Some(s) ==> j.status == s)[i],
    {
        let all = self.jobs.values();
        let ghost f = |j: Job| status matches Some(s) ==> j.status == s;
        let mut r: Vec<&Job> = Vec::new();
        let mut i: usize = 0;
        while i < all.len()
            invariant
                i <= all@.len(),
                f == |j: Job| status matches Some(s) ==> j.status == s,
                r@.len() == all@.take(i as int).filter(f).len(),
                forall|k: int| 0 <= k < r@.len() ==> *r@[k] == all@.take(i as int).filter(f)[k],
            decreases all@.len() - i,
        {
            let j = &all[i];
            let keep = match status {
                Some(s) => j.status == s,
                None => true,
            };
            proof {
                reveal(Seq::filter);
                assert(all@.take(i + 1).drop_last() =~= all@.take(i as int));
                assert(all@.take(i + 1).last() == all@[i as int]);
            }
            if keep {
                r.push(j);
            }
            i = i + 1;
        }
        assert(all@.take(i as int) =~= all@);
        r
    }
}

/// Webhook configuration.
#[derive(Debug, Clone, PartialEq, Eq)]
pub struct WebhookConfig {
    pub url: String,
    pub headers: Vec<(String, String)>,
    pub events: Vec<WebhookEvent>,
    pub secret: Option<String>,
    pub retry: WebhookRetry,
}

/// Webhook retry policy.
#[derive(Debug, Clone, Copy, PartialEq, Eq, Structural)]
pub struct WebhookRetry {
    pub max_attempts: u32,
    pub backoff_ms: u64,
}

impl Default for WebhookRetry {
    fn default() -> (r: Self)
        ensures
            r.max_attempts == 3 && r.backoff_ms == 1000,
    {
        WebhookRetry { max_attempts: default_max_attempts(), backoff_ms: default_backoff_ms() }
    }
}

/// Webhook delivery attempts unless told otherwise.
pub fn default_max_attempts() -> (r: u32)
    ensures
        r == 3,
{
    3
}

/// Pause between webhook attempts unless told otherwise, in milliseconds.
pub fn default_backoff_ms() -> (r: u64)
    ensures
        r == 1000,
{
    1000
}

/// Events a webhook can notify.
#[derive(Debug, Clone, Copy, PartialEq, Eq, Structural)]
pub enum WebhookEvent {
    JobCompleted,
    JobFailed,
    DownloadCompleted,
    DownloadFailed,
    SessionCreated,
    SessionDestroyed,
    All,
}

/// A webhook notification; `data` is JSON text.
#[derive(Debug, Clone)]
pub struct WebhookPayload {
    pub event: String,
    pub timestamp: String,
    pub data: String,
    /// `sha256=<hex>` when signed.
    pub signature: Option<String>,
}

/// What std's `DefaultHasher` (as `DefaultHasher::new()` creates it, with
/// its fixed keys) gives for hashing the string `s`.
pub uninterp spec fn default_hash(s: Seq<char>) -> u64;

/// Hashes `s` with a fresh `DefaultHasher`; the result is named
/// `default_hash`.
#[verifier::external_body]
fn default_hash_of(s: &str) -> (r: u64)
    ensures
        r == default_hash(s@),
{
    let mut hasher = std::collections::hash_map::DefaultHasher::new();
    s.hash(&mut hasher);
    hasher.finish()
}

/// The lowercase hexadecimal digit for `d < 16`.
pub open spec fn hex_digit(d: nat) -> char {
    if d < 10 { crate::text::digit_char(d) } else if d == 10 { 'a' } else if d == 11 { 'b' }
    else if d == 12 { 'c' } else if d == 13 { 'd' } else if d == 14 { 'e' } else { 'f' }
}

/// Lowercase hexadecimal without leading zeros (`format!("{:x}", n)`).
pub open spec fn hex(n: nat) -> Seq<char>
    decreases n,
{
    if n < 16 { seq![hex_digit(n)] } else { hex(n / 16).push(hex_digit(n % 16)) }
}

/// Appends `n` in lowercase hexadecimal.
fn push_hex(s: &mut String, n: u64)
    ensures
        final(s)@ == old(s)@ + hex(n as nat),
    decreases n,
{
    if n >= 16 {
        push_hex(s, n / 16);
    }
    let d = n % 16;
    let c = if d < 10 { crate::text::digit_to_char(d) } else if d == 10 { 'a' } else if d == 11 { 'b' }
        else if d == 12 { 'c' } else if d == 13 { 'd' } else if d == 14 { 'e' } else { 'f' };
    push_char(s, c);
    proof {
        if n >= 16 {
            assert(old(s)@ + hex((n / 16) as nat) + seq![c] =~= old(s)@ + hex(n as nat));
        } else {
            assert(old(s)@.push(c) =~= old(s)@ + hex(n as nat));
        }
    }
}

/// The signature of a payload: `sha256=` and the hex digest of event,
/// timestamp and secret concatenated.
pub open spec fn payload_signature(event: Seq<char>, timestamp: Seq<char>, secret: Seq<char>) -> Seq<char> {
    "sha256="@ + hex(default_hash(event + timestamp + secret) as nat)
}

impl WebhookPayload {
    /// A payload for `event` carrying `data` (JSON text), stamped now.
    pub fn new(event: &str, data: String) -> (r: Self)
        ensures
            r.event@ == event@,
            is_secs_stamp(r.timestamp@),
            r.data == data,
            r.signature is None,
    {
        WebhookPayload { event: owned(event), timestamp: chrono_now_iso8601(), data, signature: None }
    }

    /// Signs the payload with `secret`.
    pub fn sign(&mut self, secret: &str)
        ensures
            final(self).event == old(self).event,
            final(self).timestamp == old(self).timestamp,
            final(self).data == old(self).data,
            final(self).signature matches Some(sig)
                && sig@ == payload_signature(old(self).event@, old(self).timestamp@, secret@),
    {
        let mut text = self.event.clone();
        push_str(&mut text, self.timestamp.as_str());
        push_str(&mut text, secret);
        let h = default_hash_of(text.as_str());
        let mut sig = owned("sha256=");
        push_hex(&mut sig, h);
        self.signature = Some(sig);
    }
}

/// A batch of API operations.
#[derive(Debug, Clone)]
pub struct BatchRequest {
    pub operations: Vec<BatchOperation>,
    pub stop_on_error: bool,
    pub parallel: bool,
    pub webhook: Option<WebhookConfig>,
}

/// One operation of a batch; `body` is JSON text.
#[derive(Debug, Clone)]
pub struct BatchOperation {
    pub id: String,
    pub method: String,
    pub path: String,
    pub body: String,
    pub depends_on: Vec<String>,
}

/// The outcome of a batch.
#[derive(Debug, Clone)]
pub struct BatchResponse {
    pub success: bool,
    pub job_id: String,
    pub results: Vec<BatchOperationResult>,
    pub completed: usize,
    pub failed: usize,
}

/// The outcome of one operation; `response` is JSON text.
#[derive(Debug, Clone)]
pub struct BatchOperationResult {
    pub id: String,
    pub success: bool,
    pub status_code: u16,
    pub response: String,
    pub error: Option<String>,
}

/// A WebSocket subscription request.
#[derive(Debug, Clone)]
pub struct EventSubscription {
    pub action: String,
    pub events: Vec<String>,
    pub session_filter: Option<String>,
}

/// A WebSocket event; `payload` is JSON text.
#[derive(Debug, Clone)]
pub struct EventMessage {
    pub event_type: String,
    pub session: Option<String>,
    pub timestamp: String,
    pub payload: String,
}

impl EventMessage {
    /// An event of type `event_type`, stamped now.
    pub fn new(event_type: &str, session: Option<String>, payload: String) -> (r: Self)
        ensures
            r.event_type@ == event_type@,
            r.session == session,
            is_secs_stamp(r.timestamp@),
            r.payload == payload,
    {
        EventMessage { event_type: owned(event_type), session, timestamp: chrono_now_iso8601(), payload }
    }
}

} // verus!
