use alist_uploader_linux::config::{
    default_alist_path, default_auto_login, default_history_retention_days,
    default_shutdown_delay_minutes, default_true, default_upload_method, AlistConfig, AppConfig,
    FileExistsStrategy, HistoryConfig, NotificationConfig, ScheduledUpload, UploadConfig,
};
use alist_uploader_linux::storage::Storage;

#[test]
fn app_config_defaults() {
    let c = AppConfig::default();
    assert_eq!(c.alist.base_url, "http://127.0.0.1:5244");
    assert_eq!(c.alist.token, "");
    assert_eq!(c.alist.username, "");
    assert_eq!(c.alist.password, "");
    assert!(c.alist.auto_login);
    assert_eq!(c.history.retention_days, 30);
    let u = c.upload;
    assert_eq!(u.concurrency, 1);
    assert_eq!(u.max_retries, 5);
    assert_eq!(u.speed_limit, 0);
    assert!(u.as_task);
    assert_eq!(u.upload_method, "stream");
    assert_eq!(u.last_alist_path, "/");
    assert!(u.block_files_over_5gb);
    assert!(u.warn_files_over_4gb);
    assert_eq!(u.file_exists_strategy.value, "ask");
    assert!(!u.show_progress);
    assert!(!u.notify_on_complete);
    assert!(!u.notify_feishu_on_queue_complete);
    assert!(!u.shutdown_after_complete);
    assert_eq!(u.shutdown_delay_minutes, 10);
    assert!(u.minimize_on_close);
    assert_eq!(u.max_tasks_per_run, 0);
    let s = u.schedule.expect("schedule");
    assert!(!s.enabled);
    assert_eq!(s.start_time, "03:00");
    assert_eq!(s.end_time, "07:00");
    assert!(!s.notify_on_start && !s.notify_on_stop);
    assert!(u.notification.is_none());
}

#[test]
fn part_defaults() {
    assert_eq!(AlistConfig::default().base_url, "http://127.0.0.1:5244");
    assert_eq!(FileExistsStrategy::default().value, "ask");
    assert_eq!(ScheduledUpload::default().start_time, "03:00");
    assert_eq!(UploadConfig::default().max_retries, 5);
    assert_eq!(HistoryConfig::default().retention_days, 30);
    let n = NotificationConfig::default();
    assert!(!n.enabled);
    assert_eq!(n.webhook_url, "");
    assert_eq!(n.channels, vec!["feishu".to_string()]);
}

#[test]
fn missing_field_defaults() {
    assert!(default_auto_login());
    assert_eq!(default_upload_method(), "stream");
    assert_eq!(default_shutdown_delay_minutes(), 10);
    assert_eq!(default_alist_path(), "/");
    assert!(default_true());
    assert_eq!(default_history_retention_days(), 30);
}

#[test]
fn login_updates_credentials_only() {
    let mut c = AppConfig::default();
    c.upload.max_retries = 9;
    c.alist.auto_login = false;
    c.apply_login(
        "http://nas:5244".to_string(),
        "tok".to_string(),
        "admin".to_string(),
        "pw".to_string(),
    );
    assert_eq!(c.alist.base_url, "http://nas:5244");
    assert_eq!(c.alist.token, "tok");
    assert_eq!(c.alist.username, "admin");
    assert_eq!(c.alist.password, "pw");
    assert!(!c.alist.auto_login);
    assert_eq!(c.upload.max_retries, 9);
}

#[test]
fn data_directory_paths() {
    assert_eq!(Storage::data_dir_for(Some(b"/home/u/.config".to_vec())), b"/home/u/.config/alist-uploader".to_vec());
    assert_eq!(Storage::data_dir_for(Some(b"/cfg/".to_vec())), b"/cfg/alist-uploader".to_vec());
    assert_eq!(Storage::data_dir_for(None), b"./alist-uploader".to_vec());
    assert_eq!(Storage::data_file(b"/d", "config.json"), b"/d/config.json".to_vec());
    assert_eq!(Storage::data_file(b"/d", "/abs.json"), b"/abs.json".to_vec());
    assert!(Storage::get_data_path().ends_with(b"/alist-uploader"));
}

#[test]
fn data_directory_keeps_bytes_that_are_not_utf8() {
    let dir = Storage::data_dir_for(Some(vec![b'/', b'c', 0xff, 0xfe]));
    assert_eq!(dir, vec![b'/', b'c', 0xff, 0xfe, b'/', b'a', b'l', b'i', b's', b't', b'-', b'u', b'p', b'l', b'o', b'a', b'd', b'e', b'r']);
}

#[test]
fn login_is_recorded_with_trailing_slashes_trimmed() {
    let mut c = AppConfig::default();
    c.alist.auto_login = false;
    c.upload.concurrency = 3;
    c.record_login("http://nas:5244///", "tok".to_string(), "admin".to_string(), "pw".to_string());
    assert_eq!(c.alist.base_url, "http://nas:5244");
    assert_eq!(c.alist.token, "tok");
    assert_eq!(c.alist.username, "admin");
    assert_eq!(c.alist.password, "pw");
    assert!(!c.alist.auto_login);
    assert_eq!(c.upload.concurrency, 3);
}
