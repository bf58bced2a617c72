use pacfetch::scan::{
    count_lines, elapsed_seconds, last_update_seconds, last_upgrade_stamp, lastsync_url, mirror_age_seconds,
    mirror_sync_age, mirror_url_from_list, pacman_version_from, seconds_since_update, to_rfc3339,
};

#[test]
fn lines_counted_like_str_lines() {
    for s in ["", "a", "a\n", "a\nb", "a\n\nb\n", "\n", "a\r\nb\r\n"] {
        assert_eq!(count_lines(s), s.lines().count(), "{:?}", s);
    }
}

#[test]
fn mirror_url_first_server() {
    let list = "## comment\n#Server = https://skip/$repo/os/$arch\n  Server = https://mirror.example/archlinux/$repo/os/$arch\r\nServer = https://second/$repo\n";
    assert_eq!(mirror_url_from_list(list), Some("https://mirror.example/archlinux".to_string()));
    assert_eq!(mirror_url_from_list("Server = https://plain"), Some("https://plain".to_string()));
    assert_eq!(mirror_url_from_list("# none\n"), None);
    assert_eq!(mirror_url_from_list(""), None);
}

#[test]
fn version_banner() {
    let out = "\n .--.                  Pacman v7.0.0 - libalpm v15.0.0\r\n/ _.-' .-.  .-.  .-.   Copyright\n";
    assert_eq!(pacman_version_from(out), Some("Pacman v7.0.0 - libalpm v15.0.0".to_string()));
    assert_eq!(pacman_version_from("Pacman v7.0.0 only"), None);
}

const LOG: &str = "[2025-12-01T10:00:00-0800] [PACMAN] Running 'pacman -Syu'\n\
[2025-12-01T10:00:01-0800] [PACMAN] starting full system upgrade\n\
[2025-12-01T10:05:00-0800] [ALPM] transaction completed\n\
[2025-12-05T15:43:51-0800] [PACMAN] starting full system upgrade\n\
[2025-12-05T15:50:00-0800] [ALPM] transaction completed\n\
[2025-12-06T09:00:00-0800] [PACMAN] starting full system upgrade\n";

#[test]
fn last_completed_upgrade_stamp() {
    assert_eq!(last_upgrade_stamp(LOG), Some("2025-12-05T15:43:51-0800".to_string()));
    assert_eq!(last_upgrade_stamp("[x] transaction completed\n"), None);
    assert_eq!(last_upgrade_stamp(""), None);
    assert_eq!(to_rfc3339("2025-12-05T15:43:51-0800"), Some("2025-12-05T15:43:51-08:00".to_string()));
    assert_eq!(to_rfc3339("short"), None);
}

#[test]
fn seconds_since_last_update() {
    // 2025-12-05T15:43:51-08:00 is 1764978231
    assert_eq!(last_update_seconds(LOG, 1764978231 + 90), Some(90));
    assert_eq!(last_update_seconds(LOG, 1764978231 - 90), Some(0));
    assert_eq!(last_update_seconds("[bad] starting full system upgrade\n[bad] transaction completed\n", 0), None);
    let s = seconds_since_update(LOG).unwrap();
    assert!(s > 0);
    assert_eq!(seconds_since_update(""), None);
}

#[test]
fn mirror_age() {
    assert_eq!(lastsync_url("https://m"), "https://m/lastsync");
    assert_eq!(mirror_age_seconds(" 1000\n", 4600), Some(3600));
    assert_eq!(mirror_age_seconds("5000", 4600), Some(0));
    assert_eq!(mirror_age_seconds("-5", 5), Some(10));
    assert_eq!(mirror_age_seconds("abc", 5), None);
    assert_eq!(mirror_age_seconds("", 5), None);
    assert_eq!(mirror_age_seconds("9223372036854775808", 5), None);
    assert_eq!(mirror_age_seconds("-9223372036854775808", 0), Some(i64::MAX));
    assert!(mirror_sync_age("1000").unwrap() > 0);
    assert_eq!(mirror_sync_age("x"), None);
    assert_eq!(elapsed_seconds(i64::MAX, i64::MIN), i64::MAX);
    assert_eq!(elapsed_seconds(3, 7), 0);
}
