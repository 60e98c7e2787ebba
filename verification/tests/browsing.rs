use alist_uploader_linux::error::{ApiError, FsError};
use alist_uploader_linux::files::{collect_files, file_display_name, file_summary, WalkedEntry, WalkedPath};
use alist_uploader_linux::listing::{fs_roots, list_dir_entries, root_entries, sort_entries, FsEntry, RawDirEntry};

fn raw(name: &str, path: &str, is_dir: bool, size: u64, modified: Option<u64>) -> RawDirEntry {
    RawDirEntry { name: name.to_string(), path: path.to_string(), is_dir, size, modified_secs: modified }
}

fn entry(name: &str, is_dir: bool) -> FsEntry {
    FsEntry { name: name.to_string(), path: format!("/p/{}", name), is_dir, size: 0, modified: String::new() }
}

#[test]
fn sort_puts_directories_first_then_names() {
    let sorted = sort_entries(vec![
        entry("b.txt", false),
        entry("zdir", true),
        entry("a.txt", false),
        entry("Adir", true),
        entry("B.txt", false),
    ]);
    let names: Vec<&str> = sorted.iter().map(|e| e.name.as_str()).collect();
    assert_eq!(names, vec!["Adir", "zdir", "B.txt", "a.txt", "b.txt"]);
}

#[test]
fn sort_is_stable_and_orders_by_code_point() {
    let mut first = entry("same", false);
    first.size = 1;
    let mut second = entry("same", false);
    second.size = 2;
    let sorted = sort_entries(vec![first, entry("é", false), second, entry("ab", false), entry("a", false)]);
    let names: Vec<&str> = sorted.iter().map(|e| e.name.as_str()).collect();
    assert_eq!(names, vec!["a", "ab", "same", "same", "é"]);
    assert_eq!(sorted[2].size, 1);
    assert_eq!(sorted[3].size, 2);
    assert!(sort_entries(vec![]).is_empty());
}

#[test]
fn listing_hides_dot_entries_and_formats_times() {
    let listed = list_dir_entries(vec![
        raw("notes.txt", "/home\\u\\notes.txt", false, 12, Some(0)),
        raw(".hidden", "/home/u/.hidden", true, 0, Some(5)),
        raw("docs", "/home/u/docs", true, 4096, None),
        raw("big", "/home/u/big", false, 1, Some(1_700_000_000)),
    ]);
    assert_eq!(listed.len(), 3);
    assert_eq!(listed[0].name, "docs");
    assert!(listed[0].is_dir);
    assert_eq!(listed[0].size, 4096);
    assert_eq!(listed[0].modified, "");
    assert_eq!(listed[1].name, "big");
    assert_eq!(listed[1].modified, "2023-11-14T22:13:20+00:00");
    assert_eq!(listed[2].name, "notes.txt");
    assert_eq!(listed[2].path, "/home/u/notes.txt");
    assert_eq!(listed[2].modified, "1970-01-01T00:00:00+00:00");
}

#[test]
fn listing_time_out_of_calendar_range_is_empty() {
    let listed = list_dir_entries(vec![raw("f", "/f", false, 0, Some(u64::MAX / 2))]);
    assert_eq!(listed[0].modified, "");
}

#[test]
fn roots_list_mounts_then_root_then_home() {
    let roots = root_entries(
        vec![
            raw("usb", "/media\\usb", true, 77, Some(1234)),
            raw("file", "/mnt/file", false, 1, None),
            raw("disk", "/mnt/disk", true, 0, None),
        ],
        Some("/home/alice".to_string()),
    );
    assert_eq!(roots.len(), 4);
    assert_eq!(roots[0].name, "usb");
    assert_eq!(roots[0].path, "/media/usb");
    assert_eq!(roots[0].size, 0);
    assert_eq!(roots[0].modified, "1234");
    assert_eq!(roots[1].name, "disk");
    assert_eq!(roots[1].modified, "");
    assert_eq!(roots[2].name, "/ (根目录)");
    assert_eq!(roots[2].path, "/");
    assert!(roots[2].is_dir);
    assert_eq!(roots[3].name, "~ (/home/alice)");
    assert_eq!(roots[3].path, "/home/alice");
    let no_home = root_entries(vec![], None);
    assert_eq!(no_home.len(), 1);
    let live = fs_roots(vec![raw("x", "/mnt/x", true, 0, Some(0))]);
    assert!(live.len() == 2 || live.len() == 3);
    assert_eq!(live[0].modified, "0");
    assert_eq!(live[1].path, "/");
}

fn text(path: &str, is_file: bool, size: u64) -> WalkedEntry {
    WalkedEntry { path: WalkedPath::Text(path.to_string()), is_file, size }
}

#[test]
fn collected_files_keep_relative_paths() {
    let files = collect_files(
        "/data",
        vec![
            text("/data", false, 0),
            text("/data/sub/x.mp4", true, 10),
            text("/data/y.txt", true, 3),
            text("/elsewhere/z", true, 1),
            WalkedEntry {
                path: WalkedPath::Raw {
                    lossy: "/data/\u{fffd}.bin".to_string(),
                    file_name: None,
                    relative_path: None,
                },
                is_file: true,
                size: 7,
            },
            WalkedEntry {
                path: WalkedPath::Raw {
                    lossy: "/data/\u{fffd}/ok.txt".to_string(),
                    file_name: Some("ok.txt".to_string()),
                    relative_path: None,
                },
                is_file: true,
                size: 8,
            },
        ],
    );
    assert_eq!(files.len(), 5);
    assert_eq!(files[0].name, "x.mp4");
    assert_eq!(files[0].path, "/data/sub/x.mp4");
    assert_eq!(files[0].size, 10);
    assert_eq!(files[0].relative_path.as_deref(), Some("sub/x.mp4"));
    assert_eq!(files[1].relative_path.as_deref(), Some("y.txt"));
    assert_eq!(files[2].name, "z");
    assert_eq!(files[2].relative_path.as_deref(), Some(""));
    assert_eq!(files[3].name, "unknown");
    assert_eq!(files[3].path, "/data/\u{fffd}.bin");
    assert_eq!(files[3].relative_path.as_deref(), Some(""));
    assert_eq!(files[4].name, "ok.txt");
    assert_eq!(files[4].size, 8);
}

#[test]
fn file_names_and_summaries() {
    assert_eq!(file_display_name("/a/b/c.txt"), "c.txt");
    assert_eq!(file_display_name("/a/b/"), "b");
    assert_eq!(file_display_name("/"), "unknown");
    assert_eq!(file_display_name("/a/.."), "unknown");
    assert_eq!(file_summary("/x/y.bin", Some(99)).unwrap(), (99, "y.bin".to_string()));
    match file_summary("/x/gone", None) {
        Err(FsError::FileNotFound(p)) => assert_eq!(p, "/x/gone"),
        other => panic!("unexpected {:?}", other),
    }
}

#[test]
fn error_texts() {
    assert_eq!(FsError::FileNotFound("/a".to_string()).describe(), "文件不存在：/a");
    assert_eq!(FsError::AccessDenied("/b".to_string()).describe(), "无法访问文件：/b");
    assert_eq!(FsError::Io("boom".to_string()).describe(), "IO 错误：boom");
}

#[test]
fn api_error_statuses() {
    assert_eq!(ApiError::BadRequest("x".to_string()).status_code(), 400);
    assert_eq!(ApiError::NotFound("x".to_string()).status_code(), 404);
    assert_eq!(ApiError::Internal("x".to_string()).status_code(), 500);
    assert_eq!(ApiError::Alist("x".to_string()).status_code(), 502);
    assert_eq!(ApiError::Alist("gateway".to_string()).into_parts(), (502, "gateway".to_string()));
    let (code, msg) = ApiError::directory_not_found("/nope").into_parts();
    assert_eq!(code, 404);
    assert_eq!(msg, "目录不存在: /nope");
}
