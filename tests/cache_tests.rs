use pacfetch::cache::{file_age, is_db_file, join, should_copy, DbCache, FileInfo, FileTime};

fn t(secs: i64, nanos: u32) -> FileTime {
    FileTime { secs, nanos }
}

#[test]
fn zero_ttl_never_fresh() {
    let c = DbCache::at("/c".to_string());
    assert!(!c.is_fresh(0, &[Some(0), Some(0), Some(0)]));
    assert!(!c.is_fresh(0, &[None, None, None]));
}

#[test]
fn fresh_within_ttl_and_stale_or_missing_not() {
    let c = DbCache::at("/c".to_string());
    assert!(c.is_fresh(15, &[Some(0), Some(899), Some(900)]));
    assert!(!c.is_fresh(15, &[Some(0), Some(901), Some(10)]));
    assert!(!c.is_fresh(15, &[Some(0), None, Some(10)]));
    assert!(!c.is_fresh(15, &[Some(0), Some(1), None]));
    assert!(c.is_fresh(u32::MAX, &[Some(u32::MAX as u64 * 60), Some(0), Some(1)]));
}

#[test]
fn ages_from_times() {
    let now = t(1000, 500);
    assert_eq!(file_age(now, FileInfo::At(t(100, 500))), Some(900));
    assert_eq!(file_age(now, FileInfo::At(t(100, 600))), Some(899));
    assert_eq!(file_age(now, FileInfo::At(t(1000, 501))), None);
    assert_eq!(file_age(now, FileInfo::Missing), None);
    assert_eq!(file_age(now, FileInfo::NoTime), None);
}

#[test]
fn copy_decisions() {
    assert!(should_copy(FileInfo::At(t(10, 0)), FileInfo::Missing));
    assert!(should_copy(FileInfo::At(t(10, 1)), FileInfo::At(t(10, 0))));
    assert!(!should_copy(FileInfo::At(t(10, 0)), FileInfo::At(t(10, 0))));
    assert!(!should_copy(FileInfo::At(t(9, 0)), FileInfo::At(t(10, 0))));
    assert!(should_copy(FileInfo::At(t(9, 0)), FileInfo::NoTime));
    assert!(!should_copy(FileInfo::NoTime, FileInfo::At(t(1, 0))));
    assert!(should_copy(FileInfo::NoTime, FileInfo::Missing));
    assert!(!should_copy(FileInfo::Missing, FileInfo::Missing));
}

#[test]
fn db_file_names() {
    assert!(is_db_file("core.db"));
    assert!(is_db_file("..db"));
    assert!(!is_db_file(".db"));
    assert!(!is_db_file("core.db.sig"));
    assert!(!is_db_file("core.files"));
}

#[test]
fn cache_layout() {
    let c = DbCache::at("/home/u/.cache/pacfetch".to_string());
    assert_eq!(c.dbpath(), "/home/u/.cache/pacfetch");
    assert_eq!(c.sync_dir(), "/home/u/.cache/pacfetch/sync");
    assert_eq!(c.local_link(), "/home/u/.cache/pacfetch/local");
    assert_eq!(
        c.required_db_files(),
        vec![
            "/home/u/.cache/pacfetch/sync/core.db",
            "/home/u/.cache/pacfetch/sync/extra.db",
            "/home/u/.cache/pacfetch/sync/multilib.db"
        ]
    );
    assert_eq!(join("/a/", "b"), "/a/b");
    assert_eq!(join("", "b"), "b");
}
