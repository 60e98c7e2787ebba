use alist_uploader_linux::records::{BlockedFileData, BlockedFileRecord, QueueData};
use alist_uploader_linux::task::{TaskStatus, UploadTask};
use alist_uploader_linux::time::{seconds_between, ClockReading, Timestamp, MAX_SECS, MIN_SECS};

fn at(secs: i64, nanos: u32) -> Timestamp {
    Timestamp::new(secs, nanos)
}

fn sample_task(id: &str, path: &str) -> UploadTask {
    UploadTask::from_parts(id.to_string(), path.to_string(), "/remote".to_string(), at(1_700_000_000, 0))
}

#[test]
fn new_task_takes_name_after_last_slash() {
    let t = UploadTask::new("/mnt/disk/movies/a.mkv".to_string(), "/dst".to_string()).expect("random bytes");
    assert_eq!(t.file.name, "a.mkv");
    assert_eq!(t.file.path, "/mnt/disk/movies/a.mkv");
    assert_eq!(t.alist_path, "/dst");
    assert_eq!(t.status, TaskStatus::Pending);
    assert_eq!(t.progress, 0);
    assert_eq!(t.retry_count, 0);
    assert_eq!(t.file.size, 0);
    assert!(t.file.relative_path.is_none());
    assert!(t.error.is_none());
    assert!(t.start_time.is_none() && t.end_time.is_none() && t.duration.is_none());
    assert_eq!(t.created_at, t.updated_at);
    assert!(t.created_at.secs > 1_600_000_000);
}

#[test]
fn new_task_id_is_random_uuid_text() {
    let a = UploadTask::new("x".to_string(), "/".to_string()).expect("random bytes");
    let b = UploadTask::new("x".to_string(), "/".to_string()).expect("random bytes");
    assert_eq!(a.id.len(), 36);
    let chars: Vec<char> = a.id.chars().collect();
    for (i, c) in chars.iter().enumerate() {
        if i == 8 || i == 13 || i == 18 || i == 23 {
            assert_eq!(*c, '-');
        } else {
            assert!(c.is_ascii_hexdigit() && !c.is_ascii_uppercase());
        }
    }
    assert_eq!(chars[14], '4');
    assert!("89ab".contains(chars[19]));
    assert_ne!(a.id, b.id);
}

#[test]
fn file_name_edge_cases() {
    assert_eq!(sample_task("1", "plain.txt").file.name, "plain.txt");
    assert_eq!(sample_task("1", "/dir/").file.name, "");
    assert_eq!(sample_task("1", "").file.name, "");
    assert_eq!(sample_task("1", "C:\\data\\f.bin").file.name, "C:\\data\\f.bin");
    assert_eq!(sample_task("1", "a/b\\c/d e.txt").file.name, "d e.txt");
    assert_eq!(sample_task("1", "/目录/文件.txt").file.name, "文件.txt");
}

#[test]
fn upload_then_complete_records_duration() {
    let mut t = sample_task("1", "/a/b");
    t.mark_uploading_at(at(1_700_000_100, 250_000_000));
    assert_eq!(t.status, TaskStatus::Uploading);
    assert_eq!(t.start_time, Some(at(1_700_000_100, 250_000_000)));
    t.progress = 40;
    t.speed = 1234;
    t.mark_completed_at(at(1_700_000_165, 750_000_000));
    assert_eq!(t.status, TaskStatus::Completed);
    assert_eq!(t.progress, 100);
    assert_eq!(t.speed, 0);
    assert_eq!(t.duration, Some(65));
    assert_eq!(t.end_time, Some(at(1_700_000_165, 750_000_000)));
    assert_eq!(t.updated_at, at(1_700_000_165, 750_000_000));
    assert_eq!(t.id, "1");
}

#[test]
fn duration_rounds_toward_zero_when_clock_goes_back() {
    let mut t = sample_task("1", "/a");
    t.mark_uploading_at(at(100, 0));
    t.mark_completed_at(at(99, 500_000_000));
    assert_eq!(t.duration, Some(0));
    let mut u = sample_task("2", "/a");
    u.mark_uploading_at(at(100, 0));
    u.mark_completed_at(at(98, 0));
    assert_eq!(u.duration, Some(u64::MAX - 1));
    assert_eq!(seconds_between(at(98, 0), at(100, 0)), -2);
    assert_eq!(seconds_between(at(10, 999_999_999), at(9, 0)), 1);
}

#[test]
fn complete_without_start_keeps_duration() {
    let mut t = sample_task("1", "/a");
    t.duration = Some(7);
    t.mark_completed_at(at(5, 0));
    assert_eq!(t.duration, Some(7));
    let mut u = sample_task("1", "/a");
    u.mark_completed();
    assert_eq!(u.duration, None);
    assert!(u.end_time.is_some());
}

#[test]
fn failure_records_error_and_upload_clears_it() {
    let mut t = sample_task("1", "/a");
    t.mark_uploading_at(at(10, 0));
    t.progress = 30;
    t.mark_failed_at("network down".to_string(), at(13, 0));
    assert_eq!(t.status, TaskStatus::Failed);
    assert_eq!(t.error.as_deref(), Some("network down"));
    assert_eq!(t.duration, Some(3));
    assert_eq!(t.progress, 30);
    t.increment_retry_at(at(14, 0));
    assert_eq!(t.retry_count, 1);
    assert_eq!(t.status, TaskStatus::Pending);
    assert_eq!(t.error.as_deref(), Some("network down"));
    t.mark_uploading_at(at(15, 0));
    assert!(t.error.is_none());
    assert_eq!(t.prev_progress, 0);
    assert!(t.prev_ts.is_none());
}

#[test]
fn status_updates_stamp_time() {
    let mut t = sample_task("1", "/a");
    t.update_status_at(TaskStatus::Cancelled, at(42, 1));
    assert_eq!(t.status, TaskStatus::Cancelled);
    assert_eq!(t.updated_at, at(42, 1));
    t.update_status(TaskStatus::Pending);
    assert_eq!(t.status, TaskStatus::Pending);
    assert!(t.updated_at.secs > 1_600_000_000);
    t.mark_uploading();
    assert!(t.start_time.is_some());
    t.mark_failed("x".to_string());
    assert_eq!(t.status, TaskStatus::Failed);
    t.increment_retry();
    assert_eq!(t.retry_count, 1);
}

#[test]
fn creation_time_is_read_from_the_clock() {
    let t = UploadTask::new("/f".to_string(), "/".to_string()).expect("random bytes");
    assert!(t.created_at.secs > 1_600_000_000);
    assert!(t.created_at.nanos < 1_000_000_000);
}

#[test]
fn retry_resets_first_matching_task_only() {
    let mut a = sample_task("a", "/1");
    a.status = TaskStatus::Failed;
    a.retry_count = 3;
    a.error = Some("e".to_string());
    a.progress = 55;
    let mut b = sample_task("b", "/2");
    b.status = TaskStatus::Failed;
    let mut a2 = sample_task("a", "/3");
    a2.status = TaskStatus::Failed;
    let mut q = QueueData { tasks: vec![a, b, a2], version: 1 };
    assert!(q.retry_task_at(&"a".to_string(), at(99, 0)));
    assert_eq!(q.tasks[0].status, TaskStatus::Pending);
    assert_eq!(q.tasks[0].retry_count, 0);
    assert!(q.tasks[0].error.is_none());
    assert_eq!(q.tasks[0].progress, 0);
    assert_eq!(q.tasks[0].updated_at, at(99, 0));
    assert_eq!(q.tasks[1].status, TaskStatus::Failed);
    assert_eq!(q.tasks[2].status, TaskStatus::Failed);
    assert!(!q.retry_task(&"zzz".to_string()));
    assert_eq!(q.tasks.len(), 3);
    assert!(q.retry_task(&"b".to_string()));
    assert_eq!(q.tasks[1].status, TaskStatus::Pending);
}

#[test]
fn blocked_record_removal() {
    let rec = |n: &str| BlockedFileRecord {
        file_path: format!("/x/{}", n),
        file_name: n.to_string(),
        file_size: 6_000_000_000,
        reason: "too large".to_string(),
        blocked_at: at(1, 0),
    };
    let mut d = BlockedFileData { records: vec![rec("a"), rec("b"), rec("c")] };
    assert!(d.remove_record(1));
    assert_eq!(d.records.len(), 2);
    assert_eq!(d.records[0].file_name, "a");
    assert_eq!(d.records[1].file_name, "c");
    assert!(!d.remove_record(2));
    assert_eq!(d.records.len(), 2);
    let empty = BlockedFileData::default();
    assert!(empty.records.is_empty());
}

#[test]
fn stored_lists_start_empty() {
    let q = QueueData::default();
    assert!(q.tasks.is_empty());
    assert_eq!(q.version, 1);
    let h = alist_uploader_linux::records::HistoryData::default();
    assert!(h.records.is_empty());
    assert_eq!(h.version, 1);
}

#[test]
fn retrying_twice_at_once_is_retrying_once() {
    let mut t = sample_task("a", "/1");
    t.status = TaskStatus::Failed;
    t.retry_count = 2;
    let mut q = QueueData { tasks: vec![t, sample_task("b", "/2")], version: 3 };
    q.retry_task_at(&"a".to_string(), at(7, 0));
    let once: Vec<(TaskStatus, u32, Timestamp)> = q.tasks.iter().map(|t| (t.status, t.retry_count, t.updated_at)).collect();
    q.retry_task_at(&"a".to_string(), at(7, 0));
    let twice: Vec<(TaskStatus, u32, Timestamp)> = q.tasks.iter().map(|t| (t.status, t.retry_count, t.updated_at)).collect();
    assert_eq!(once, twice);
    assert_eq!(q.version, 3);
}

#[test]
fn clock_readings_become_instants() {
    let after = Timestamp::from_clock_reading(ClockReading::AtOrAfterEpoch { secs: 1_700_000_000, nanos: 5 });
    assert_eq!(after, at(1_700_000_000, 5));
    let before = Timestamp::from_clock_reading(ClockReading::BeforeEpoch { secs: 10, nanos: 250_000_000 });
    assert_eq!(before, at(-11, 750_000_000));
    let whole = Timestamp::from_clock_reading(ClockReading::BeforeEpoch { secs: 3, nanos: 0 });
    assert_eq!(whole, at(-3, 0));
    let far = Timestamp::from_clock_reading(ClockReading::AtOrAfterEpoch { secs: u64::MAX, nanos: 0 });
    assert_eq!(far, at(MAX_SECS, 999_999_999));
    let early = Timestamp::from_clock_reading(ClockReading::BeforeEpoch { secs: u64::MAX, nanos: 1 });
    assert_eq!(early, at(MIN_SECS, 0));
}
