//! Upload tasks and their lifecycle: created pending, marked uploading,
//! then completed or failed, and sent back to pending on a retry.

use vstd::prelude::*;
use vstd::string::*;

use crate::paths::{file_name_of, last_segment};
use crate::time::{current_time, seconds_between, whole_seconds_between, Timestamp};

verus! {

/// Where a task stands.
#[derive(Clone, Copy, Debug, PartialEq, Eq, Structural)]
pub enum TaskStatus {
    Pending,
    Uploading,
    Completed,
    Failed,
    Cancelled,
}

/// A local file picked for upload.
#[derive(Clone, Debug)]
pub struct FileInfo {
    pub path: String,
    pub name: String,
    pub size: u64,
    /// Path below the directory the file was collected from, when it was.
    pub relative_path: Option<String>,
}

/// One file queued for upload to an Alist directory.
#[derive(Clone, Debug)]
pub struct UploadTask {
    pub id: String,
    pub file: FileInfo,
    pub alist_path: String,
    pub status: TaskStatus,
    /// Percentage uploaded.
    pub progress: u8,
    pub retry_count: u32,
    pub error: Option<String>,
    pub start_time: Option<Timestamp>,
    pub end_time: Option<Timestamp>,
    /// Whole seconds from start to end of the last upload.
    pub duration: Option<u64>,
    pub created_at: Timestamp,
    pub updated_at: Timestamp,
    /// Upload speed in bytes per second, meaningful while uploading.
    pub speed: u64,
    /// Progress at the previous poll, in hundredths of a percent (0 to 10000).
    pub prev_progress: u32,
    /// Time of the previous poll.
    pub prev_ts: Option<Timestamp>,
}

/// What adding files to the queue produced.
#[derive(Clone, Debug)]
pub struct AddToQueueResult {
    pub tasks: Vec<UploadTask>,
    pub warnings: Vec<String>,
}

pub open spec fn is_lower_hex_digit(c: char) -> bool {
    ('0' <= c && c <= '9') || ('a' <= c && c <= 'f')
}

/// `s` is a random (version 4) UUID written as 36 lower-case hexadecimal
/// characters in groups of 8-4-4-4-12.
pub open spec fn is_v4_uuid_text(s: Seq<char>) -> bool {
    &&& s.len() == 36
    &&& forall|i: int|
        0 <= i < 36 ==> (if i == 8 || i == 13 || i == 18 || i == 23 {
            s[i] == '-'
        } else {
            is_lower_hex_digit(s[i])
        })
    &&& s[14] == '4'
    &&& (s[19] == '8' || s[19] == '9' || s[19] == 'a' || s[19] == 'b')
}

/// The lower-case hexadecimal digit for `n` (below 16).
pub open spec fn hex_char(n: u8) -> char {
    if n == 0 { '0' }
    else if n == 1 { '1' }
    else if n == 2 { '2' }
    else if n == 3 { '3' }
    else if n == 4 { '4' }
    else if n == 5 { '5' }
    else if n == 6 { '6' }
    else if n == 7 { '7' }
    else if n == 8 { '8' }
    else if n == 9 { '9' }
    else if n == 10 { 'a' }
    else if n == 11 { 'b' }
    else if n == 12 { 'c' }
    else if n == 13 { 'd' }
    else if n == 14 { 'e' }
    else { 'f' }
}

/// The 16 bytes of a random UUID made from `random`: the high half of byte
/// 6 set to version 4, and the top two bits of byte 8 set to the variant `10`.
pub open spec fn v4_bytes(random: Seq<u8>) -> Seq<u8> {
    random.update(6, (random[6] & 0x0f) | 0x40).update(8, (random[8] & 0x3f) | 0x80)
}

/// Index among the 32 hexadecimal digits of the character at `i` in the
/// 36-character hyphenated form.
pub open spec fn digit_index(i: int) -> int {
    i - (if i > 8 { 1int } else { 0 }) - (if i > 13 { 1int } else { 0 }) - (if i > 18 {
        1int
    } else {
        0
    }) - (if i > 23 { 1int } else { 0 })
}

/// The `k`-th hexadecimal digit of `bytes`: high half of each byte first.
pub open spec fn nibble(bytes: Seq<u8>, k: int) -> u8 {
    if k % 2 == 0 {
        bytes[k / 2] >> 4
    } else {
        bytes[k / 2] & 0x0f
    }
}

/// The 16 bytes `bytes` written as 32 lower-case hexadecimal digits in
/// groups of 8-4-4-4-12 joined by `-`.
pub open spec fn hyphenated_hex(bytes: Seq<u8>) -> Seq<char> {
    Seq::new(
        36,
        |i: int|
            if i == 8 || i == 13 || i == 18 || i == 23 {
                '-'
            } else {
                hex_char(nibble(bytes, digit_index(i)))
            },
    )
}

/// The text of a random UUID made from 16 random bytes is a version 4 UUID
/// in hyphenated lower-case form.
pub proof fn lemma_v4_text(random: Seq<u8>)
    requires
        random.len() == 16,
    ensures
        is_v4_uuid_text(hyphenated_hex(v4_bytes(random))),
{
    let b = v4_bytes(random);
    let t = hyphenated_hex(b);
    assert forall|i: int| 0 <= i < 36 implies (if i == 8 || i == 13 || i == 18 || i == 23 {
        t[i] == '-'
    } else {
        is_lower_hex_digit(t[i])
    }) by {
        if !(i == 8 || i == 13 || i == 18 || i == 23) {
            let k = digit_index(i);
            let x = b[k / 2];
            assert(x >> 4 < 16) by (bit_vector);
            assert(x & 0x0f < 16) by (bit_vector);
        }
    }
    let b6 = random[6];
    let b8 = random[8];
    assert(((b6 & 0x0f) | 0x40) >> 4 == 4) by (bit_vector);
    assert(8 <= ((b8 & 0x3f) | 0x80) >> 4 <= 11) by (bit_vector);
    assert(digit_index(14) == 12);
    assert(digit_index(19) == 16);
}

/// Sixteen random bytes from the operating system, or none when it cannot
/// give them.
///
/// Calls `getrandom::fill` on a 16-byte buffer, which reports every failure
/// (a partial read too) as an error rather than panicking. Nothing is claimed
/// of the bytes.
#[verifier::external_body]
fn random_bytes() -> (bytes: Option<[u8; 16]>) {
    let mut buf = [0u8; 16];
    match getrandom::fill(&mut buf) {
        Ok(()) => Some(buf),
        Err(_) => None,
    }
}

/// The text of the random UUID made from `random`.
///
/// Calls `uuid::Builder::from_random_bytes` (which sets version 4 in byte 6
/// and the variant `10` in byte 8), takes the UUID and renders it with
/// `to_string` (`Display` writes the lower-case hyphenated form). Claimed:
/// the text is `hyphenated_hex(v4_bytes(random))`, as the builder's masks and
/// the formatter's digit order in the uuid source show.
#[verifier::external_body]
fn uuid_text_from_random(random: [u8; 16]) -> (text: String)
    ensures
        text@ == hyphenated_hex(v4_bytes(random@)),
{
    uuid::Builder::from_random_bytes(random).into_uuid().to_string()
}

/// A fresh random task identifier, or none when the operating system gives
/// no random bytes.
fn random_task_id() -> (id: Option<String>)
    ensures
        id matches Some(s) ==> is_v4_uuid_text(s@),
{
    match random_bytes() {
        Some(bytes) => {
            let text = uuid_text_from_random(bytes);
            proof {
                lemma_v4_text(bytes@);
            }
            Some(text)
        },
        None => None,
    }
}

impl UploadTask {
    /// Every time the task carries lies in the calendar range, with no leap second.
    pub open spec fn well_formed(&self) -> bool {
        &&& self.created_at.valid()
        &&& self.updated_at.valid()
        &&& (self.start_time matches Some(t) ==> t.valid())
        &&& (self.end_time matches Some(t) ==> t.valid())
        &&& (self.prev_ts matches Some(t) ==> t.valid())
    }

    /// The same task, at least in what identifies it: id, file, target
    /// directory and creation time.
    pub open spec fn same_identity(&self, other: &UploadTask) -> bool {
        &&& self.id == other.id
        &&& self.file.path == other.file.path
        &&& self.file.name == other.file.name
        &&& self.file.size == other.file.size
        &&& self.file.relative_path == other.file.relative_path
        &&& self.alist_path == other.alist_path
        &&& self.created_at == other.created_at
    }

    /// The task after its status is set to `status` at `now`.
    pub open spec fn with_status(self, status: TaskStatus, now: Timestamp) -> UploadTask {
        UploadTask { status, updated_at: now, ..self }
    }

    /// The task after an upload of it starts at `now`.
    pub open spec fn uploading_at(self, now: Timestamp) -> UploadTask {
        UploadTask {
            status: TaskStatus::Uploading,
            start_time: Some(now),
            updated_at: now,
            error: None,
            speed: 0,
            prev_progress: 0,
            prev_ts: None,
            ..self
        }
    }

    /// The duration recorded when an upload ends at `now`: whole seconds
    /// since the start, when the task has one, cast to `u64` as Rust casts
    /// an `i64`; otherwise what was recorded before.
    pub open spec fn duration_until(self, now: Timestamp) -> Option<u64> {
        match self.start_time {
            Some(start) => Some(whole_seconds_between(now, start) as i64 as u64),
            None => self.duration,
        }
    }

    /// The task after its upload completes at `now`.
    pub open spec fn completed_at(self, now: Timestamp) -> UploadTask {
        UploadTask {
            status: TaskStatus::Completed,
            end_time: Some(now),
            progress: 100,
            updated_at: now,
            speed: 0,
            duration: self.duration_until(now),
            ..self
        }
    }

    /// The task after its upload fails with `error` at `now`.
    pub open spec fn failed_at(self, error: String, now: Timestamp) -> UploadTask {
        UploadTask {
            status: TaskStatus::Failed,
            end_time: Some(now),
            error: Some(error),
            updated_at: now,
            speed: 0,
            duration: self.duration_until(now),
            ..self
        }
    }

    /// The task after one more retry is counted at `now`.
    pub open spec fn retried_at(self, now: Timestamp) -> UploadTask {
        UploadTask {
            retry_count: (self.retry_count + 1) as u32,
            status: TaskStatus::Pending,
            updated_at: now,
            ..self
        }
    }

    /// The task after a user asks, at `now`, to upload it again from scratch.
    pub open spec fn reset_at(self, now: Timestamp) -> UploadTask {
        UploadTask {
            status: TaskStatus::Pending,
            retry_count: 0,
            error: None,
            progress: 0,
            updated_at: now,
            ..self
        }
    }

    /// A pending task for the file at `file_path`, to be uploaded into
    /// `alist_path`, with identifier `id`, created at `now`. The file's name
    /// is what follows the last `/` of its path.
    pub fn from_parts(id: String, file_path: String, alist_path: String, now: Timestamp) -> (task: UploadTask)
        ensures
            task.id == id,
            task.file.path == file_path,
            task.file.name@ == last_segment(file_path@),
            task.file.size == 0,
            task.file.relative_path is None,
            task.alist_path == alist_path,
            task.status == TaskStatus::Pending,
            task.progress == 0,
            task.retry_count == 0,
            task.error is None,
            task.start_time is None,
            task.end_time is None,
            task.duration is None,
            task.created_at == now,
            task.updated_at == now,
            task.speed == 0,
            task.prev_progress == 0,
            task.prev_ts is None,
    {
        let name = file_name_of(file_path.as_str());
        UploadTask {
            id,
            file: FileInfo { path: file_path, name, size: 0, relative_path: None },
            alist_path,
            status: TaskStatus::Pending,
            progress: 0,
            retry_count: 0,
            error: None,
            start_time: None,
            end_time: None,
            duration: None,
            created_at: now,
            updated_at: now,
            speed: 0,
            prev_progress: 0,
            prev_ts: None,
        }
    }

    /// A new pending task with a fresh random identifier, created now; none
    /// when the operating system gives no random bytes for the identifier.
    pub fn new(file_path: String, alist_path: String) -> (task: Option<UploadTask>)
        ensures
            task matches Some(task) ==> {
                &&& is_v4_uuid_text(task.id@)
                &&& task.well_formed()
                &&& task.file.path == file_path
                &&& task.file.name@ == last_segment(file_path@)
                &&& task.file.size == 0
                &&& task.file.relative_path is None
                &&& task.alist_path == alist_path
                &&& task.status == TaskStatus::Pending
                &&& task.progress == 0
                &&& task.retry_count == 0
                &&& task.error is None
                &&& task.start_time is None
                &&& task.end_time is None
                &&& task.duration is None
                &&& task.created_at == task.updated_at
                &&& task.speed == 0
                &&& task.prev_progress == 0
                &&& task.prev_ts is None
            },
    {
        match random_task_id() {
            Some(id) => {
                let now = current_time();
                Some(UploadTask::from_parts(id, file_path, alist_path, now))
            },
            None => None,
        }
    }

    /// Sets the status, stamping the change with `now`.
    pub fn update_status_at(&mut self, status: TaskStatus, now: Timestamp)
        ensures
            *final(self) == old(self).with_status(status, now),
    {
        self.status = status;
        self.updated_at = now;
    }

    /// Sets the status, stamping the change with the current time.
    pub fn update_status(&mut self, status: TaskStatus)
        ensures
            exists|now: Timestamp| now.valid() && *final(self) == old(self).with_status(status, now),
    {
        let now = current_time();
        self.update_status_at(status, now);
    }

    /// Starts an upload at `now`: status uploading, start time `now`, no
    /// error, and the speed measurement reset.
    pub fn mark_uploading_at(&mut self, now: Timestamp)
        ensures
            *final(self) == old(self).uploading_at(now),
    {
        self.status = TaskStatus::Uploading;
        self.start_time = Some(now);
        self.updated_at = now;
        self.error = None;
        self.speed = 0;
        self.prev_progress = 0;
        self.prev_ts = None;
    }

    /// Starts an upload now.
    pub fn mark_uploading(&mut self)
        ensures
            exists|now: Timestamp| now.valid() && *final(self) == old(self).uploading_at(now),
    {
        let now = current_time();
        self.mark_uploading_at(now);
    }

    fn record_duration(&mut self, now: Timestamp)
        requires
            now.valid(),
            old(self).start_time matches Some(t) ==> t.valid(),
        ensures
            *final(self) == (UploadTask { duration: old(self).duration_until(now), ..*old(self) }),
    {
        match self.start_time {
            Some(start) => {
                let secs = seconds_between(now, start);
                self.duration = Some(secs as u64);
            },
            None => {},
        }
    }

    /// Completes the upload at `now`: progress 100, end time `now`, and the
    /// duration from the start time when there is one.
    pub fn mark_completed_at(&mut self, now: Timestamp)
        requires
            now.valid(),
            old(self).start_time matches Some(t) ==> t.valid(),
        ensures
            *final(self) == old(self).completed_at(now),
    {
        self.status = TaskStatus::Completed;
        self.end_time = Some(now);
        self.progress = 100;
        self.updated_at = now;
        self.speed = 0;
        self.record_duration(now);
    }

    /// Completes the upload now.
    pub fn mark_completed(&mut self)
        requires
            old(self).start_time matches Some(t) ==> t.valid(),
        ensures
            exists|now: Timestamp| now.valid() && *final(self) == old(self).completed_at(now),
    {
        let now = current_time();
        self.mark_completed_at(now);
    }

    /// Records at `now` that the upload failed with `error`.
    pub fn mark_failed_at(&mut self, error: String, now: Timestamp)
        requires
            now.valid(),
            old(self).start_time matches Some(t) ==> t.valid(),
        ensures
            *final(self) == old(self).failed_at(error, now),
    {
        self.status = TaskStatus::Failed;
        self.end_time = Some(now);
        self.error = Some(error);
        self.updated_at = now;
        self.speed = 0;
        self.record_duration(now);
    }

    /// Records now that the upload failed with `error`.
    pub fn mark_failed(&mut self, error: String)
        requires
            old(self).start_time matches Some(t) ==> t.valid(),
        ensures
            exists|now: Timestamp| now.valid() && *final(self) == old(self).failed_at(error, now),
    {
        let now = current_time();
        self.mark_failed_at(error, now);
    }

    /// Counts one more retry at `now` and puts the task back to pending.
    pub fn increment_retry_at(&mut self, now: Timestamp)
        requires
            old(self).retry_count < u32::MAX,
        ensures
            *final(self) == old(self).retried_at(now),
    {
        self.retry_count = self.retry_count + 1;
        self.status = TaskStatus::Pending;
        self.updated_at = now;
    }

    /// Counts one more retry now and puts the task back to pending.
    pub fn increment_retry(&mut self)
        requires
            old(self).retry_count < u32::MAX,
        ensures
            exists|now: Timestamp| now.valid() && *final(self) == old(self).retried_at(now),
    {
        let now = current_time();
        self.increment_retry_at(now);
    }

    /// Puts the task back to pending at `now` with no retries counted, no
    /// error and no progress, as a user-requested retry does.
    pub fn reset_for_retry_at(&mut self, now: Timestamp)
        ensures
            *final(self) == old(self).reset_at(now),
    {
        self.status = TaskStatus::Pending;
        self.retry_count = 0;
        self.error = None;
        self.progress = 0;
        self.updated_at = now;
    }
}

/// No step of a task's lifecycle changes what identifies it: its id, its
/// file, its target directory or its creation time.
pub proof fn lemma_lifecycle_keeps_identity(
    task: UploadTask,
    status: TaskStatus,
    error: String,
    now: Timestamp,
)
    ensures
        task.with_status(status, now).same_identity(&task),
        task.uploading_at(now).same_identity(&task),
        task.completed_at(now).same_identity(&task),
        task.failed_at(error, now).same_identity(&task),
        task.retried_at(now).same_identity(&task),
        task.reset_at(now).same_identity(&task),
{
}

/// Stamping a well-formed task with a valid time keeps it well formed,
/// whichever step of its lifecycle does the stamping.
pub proof fn lemma_lifecycle_keeps_well_formed(
    task: UploadTask,
    status: TaskStatus,
    error: String,
    now: Timestamp,
)
    requires
        task.well_formed(),
        now.valid(),
    ensures
        task.with_status(status, now).well_formed(),
        task.uploading_at(now).well_formed(),
        task.completed_at(now).well_formed(),
        task.failed_at(error, now).well_formed(),
        task.retried_at(now).well_formed(),
        task.reset_at(now).well_formed(),
{
}

/// An upload started at `start` and ended at `end`, whether it completes or
/// fails, records as its duration the whole seconds between the two; when
/// the clock did not go back, that is the elapsed time rounded down.
pub proof fn lemma_upload_duration(task: UploadTask, error: String, start: Timestamp, end: Timestamp)
    requires
        start.valid(),
        end.valid(),
    ensures
        task.uploading_at(start).completed_at(end).duration == Some(
            whole_seconds_between(end, start) as i64 as u64,
        ),
        task.uploading_at(start).failed_at(error, end).duration == Some(
            whole_seconds_between(end, start) as i64 as u64,
        ),
        start.total_nanos() <= end.total_nanos() ==> task.uploading_at(start).completed_at(
            end,
        ).duration == Some(((end.total_nanos() - start.total_nanos()) / 1_000_000_000) as u64),
{
    let d = end.total_nanos() - start.total_nanos();
    if d >= 0 {
        assert(0 <= d / 1_000_000_000 <= d);
        assert(d <= 17_000_000_000_000 * 1_000_000_000);
        assert(d / 1_000_000_000 <= 17_000_000_000_000);
    }
}

/// A completed task is fully uploaded and no longer measures speed; a
/// failed one keeps its error message; starting an upload again clears the
/// error, whatever came before.
pub proof fn lemma_outcomes(task: UploadTask, error: String, now: Timestamp, later: Timestamp)
    ensures
        task.completed_at(now).status == TaskStatus::Completed,
        task.completed_at(now).progress == 100,
        task.completed_at(now).speed == 0,
        task.completed_at(now).end_time == Some(now),
        task.failed_at(error, now).status == TaskStatus::Failed,
        task.failed_at(error, now).end_time == Some(now),
        task.failed_at(error, now).updated_at == now,
        task.failed_at(error, now).speed == 0,
        task.failed_at(error, now).error == Some(error),
        task.failed_at(error, now).progress == task.progress,
        task.failed_at(error, now).uploading_at(later).error is None,
        task.failed_at(error, now).retried_at(later).uploading_at(later).error is None,
{
}

/// Counting a retry adds exactly one to the count, returns the task to
/// pending and keeps its error and progress; a user-requested retry starts
/// the count afresh with no error and no progress.
pub proof fn lemma_retries(task: UploadTask, now: Timestamp)
    requires
        task.retry_count < u32::MAX,
    ensures
        task.retried_at(now).retry_count == task.retry_count + 1,
        task.retried_at(now).status == TaskStatus::Pending,
        task.retried_at(now).error == task.error,
        task.retried_at(now).progress == task.progress,
        task.reset_at(now).retry_count == 0,
        task.reset_at(now).status == TaskStatus::Pending,
        task.reset_at(now).error is None,
        task.reset_at(now).progress == 0,
{
}

} // verus!
