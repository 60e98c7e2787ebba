use std::sync::Arc;

use alist_uploader_linux::paths::{file_name_of, forward_slashes, join_path_bytes, trim_trailing_slashes};
use alist_uploader_linux::rate_limiter::RateLimiter;
use alist_uploader_linux::routes::AppState;
use alist_uploader_linux::text::{decimal, text_precedes_or_equals};

#[test]
fn last_segment_of_paths() {
    assert_eq!(file_name_of("/a/b/c"), "c");
    assert_eq!(file_name_of("c"), "c");
    assert_eq!(file_name_of("a/"), "");
    assert_eq!(file_name_of("//"), "");
}

#[test]
fn separators_and_trailing_slashes() {
    assert_eq!(forward_slashes("C:\\a\\b"), "C:/a/b");
    assert_eq!(forward_slashes("/ok/path"), "/ok/path");
    assert_eq!(forward_slashes(&forward_slashes("a\\b")), "a/b");
    assert_eq!(trim_trailing_slashes("http://host:5244///"), "http://host:5244");
    assert_eq!(trim_trailing_slashes("///"), "");
    assert_eq!(trim_trailing_slashes("a/b"), "a/b");
    assert_eq!(trim_trailing_slashes(&trim_trailing_slashes("x//")), "x");
}

#[test]
fn joining_paths() {
    assert_eq!(join_path_bytes(b"a", b"b"), b"a/b".to_vec());
    assert_eq!(join_path_bytes(b"a/", b"b"), b"a/b".to_vec());
    assert_eq!(join_path_bytes(b"", b"b"), b"b".to_vec());
    assert_eq!(join_path_bytes(b"a", b"/b"), b"/b".to_vec());
}

#[test]
fn decimal_text() {
    assert_eq!(decimal(0), "0");
    assert_eq!(decimal(7), "7");
    assert_eq!(decimal(1_700_000_000), "1700000000");
    assert_eq!(decimal(u64::MAX), u64::MAX.to_string());
}

#[test]
fn code_point_order() {
    assert!(text_precedes_or_equals("a", "b"));
    assert!(!text_precedes_or_equals("b", "a"));
    assert!(text_precedes_or_equals("ab", "abc"));
    assert!(!text_precedes_or_equals("abc", "ab"));
    assert!(text_precedes_or_equals("Z", "a"));
    assert!(text_precedes_or_equals("same", "same"));
    assert!(text_precedes_or_equals("", ""));
    assert!(text_precedes_or_equals("z", "é"));
}

#[test]
fn rate_limiter_counts_bytes() {
    let mut unlimited = RateLimiter::new(0);
    assert_eq!(unlimited.account_bytes(100), None);
    assert_eq!(unlimited.sent(), 0);
    let mut r = RateLimiter::new(1000);
    assert_eq!(r.bytes_per_sec(), 1000);
    assert_eq!(r.account_bytes(0), None);
    assert_eq!(r.account_bytes(300), Some(300));
    assert_eq!(r.account_bytes(500), Some(800));
    assert_eq!(r.sent(), 800);
    assert!(r.started_at().elapsed().as_secs() < 60);
    assert_eq!(RateLimiter::pending_wait(800_000_000, 100_000_000), Some(700_000_000));
    assert_eq!(RateLimiter::pending_wait(5, 5), None);
    assert_eq!(RateLimiter::pending_wait(1, 9), None);
}

#[test]
fn app_state_shares_manager() {
    let m = Arc::new(5u32);
    let s = AppState::new(m.clone());
    assert!(Arc::ptr_eq(&s.qm, &m));
    let t = s.clone();
    assert_eq!(*t.qm, 5);
}
