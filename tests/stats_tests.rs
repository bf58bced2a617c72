use pacfetch::art::{get_art, normalize_width, PACMAN_DEFAULT, PACMAN_SMALL};
use pacfetch::config::{default_stats, default_ttl, CacheConfig, Config, DisplayConfig, TitleConfig, TitleWidth};
use pacfetch::manager::{normalize_duration as manager_duration, test_mirror_health, FetchPacmanStats};
use pacfetch::number::{parse_i64, parse_u8};
use pacfetch::stats::{
    needs_disk_stat, needs_mirror_health, needs_mirror_url, needs_orphan_stats, needs_upgrade_stats, plan_stats, StatId,
    StatIdOrTitle,
};
use pacfetch::util::{disk_usage, expand_path, expand_tilde, expand_tilde_with, normalize_duration};

#[test]
fn stat_parsing() {
    assert_eq!(StatId::parse("installed"), Ok(StatIdOrTitle::Stat(StatId::Installed)));
    assert_eq!(StatId::parse("disk"), Ok(StatIdOrTitle::Stat(StatId::Disk)));
    assert_eq!(StatId::parse("title"), Ok(StatIdOrTitle::LegacyTitle));
    assert_eq!(StatId::parse("title.header"), Ok(StatIdOrTitle::NamedTitle("header".to_string())));
    assert_eq!(StatId::parse("title."), Err("title name cannot be empty".to_string()));
    assert_eq!(StatId::parse("bogus"), Err("unknown stat: bogus".to_string()));
    assert_eq!(StatId::parse("colors"), Err("unknown stat: colors".to_string()));
}

#[test]
fn keys_and_labels() {
    assert_eq!(StatId::NetUpgradeSize.config_key(), "net_upgrade_size");
    assert_eq!(StatId::Title.config_key(), "title");
    assert_eq!(StatId::CacheSize.label(), "Package Cache");
    assert_eq!(StatId::Title.label(), "");
    for id in [StatId::Installed, StatId::MirrorHealth, StatId::OrphanedPackages, StatId::LastUpdate] {
        assert_eq!(StatId::parse(id.config_key()), Ok(StatIdOrTitle::Stat(id)));
    }
}

#[test]
fn needs_helpers() {
    let req = vec![StatIdOrTitle::LegacyTitle, StatIdOrTitle::Stat(StatId::DownloadSize), StatIdOrTitle::Stat(StatId::MirrorHealth)];
    assert!(needs_upgrade_stats(&req));
    assert!(!needs_orphan_stats(&req));
    assert!(needs_mirror_health(&req));
    assert!(needs_mirror_url(&req));
    assert!(!needs_disk_stat(&req));
    let plan = plan_stats(&req);
    assert!(plan.upgrade && plan.mirror_url && plan.mirror_health);
    assert!(!plan.installed && !plan.disk && !plan.orphans && !plan.last_update && !plan.cache_size);
    assert!(!needs_upgrade_stats(&[]));
}

#[test]
fn parsed_stats_skips_bad_entries() {
    let mut d = DisplayConfig::default();
    d.stats = vec!["title.top".into(), "nope".into(), "disk".into(), "title.".into()];
    assert_eq!(d.parsed_stats(), vec![StatIdOrTitle::NamedTitle("top".into()), StatIdOrTitle::Stat(StatId::Disk)]);
    assert_eq!(DisplayConfig::default().parsed_stats().len(), 12);
}

#[test]
fn config_defaults() {
    let c = Config::default();
    assert_eq!(c.cache.ttl_minutes, 15);
    assert_eq!(default_ttl(), 15);
    assert_eq!(CacheConfig::default().ttl_minutes, 15);
    assert_eq!(c.disk.path, "/");
    assert_eq!(c.display.ascii, "PACMAN_DEFAULT");
    assert_eq!(c.display.stats, default_stats());
    assert_eq!(default_stats().len(), 13);
    let t = TitleConfig::default();
    assert_eq!(t.line, "-");
    assert!(matches!(t.width, TitleWidth::Named(ref n) if n == "title"));
}

#[test]
fn config_migration() {
    assert!(Config::needs_migration("[display]\nascii = \"x\"\n"));
    assert!(!Config::needs_migration("[display.palette]\n"));
    assert!(!Config::needs_migration("[display.titles.header]\n"));
    let m = Config::migrate_stats(vec!["installed".into()]);
    assert_eq!(m, vec!["title.header", "installed", "newline", "colors"]);
    let m = Config::migrate_stats(vec!["title".into(), "colors".into()]);
    assert_eq!(m, vec!["title", "colors"]);
    assert_eq!(
        pacfetch::config::stats_toml(&vec!["a".into(), "b".into()]),
        "stats = [\n    \"a\",\n    \"b\",\n]"
    );
}

#[test]
fn durations() {
    assert_eq!(normalize_duration(1), "1 second");
    assert_eq!(normalize_duration(59), "59 seconds");
    assert_eq!(normalize_duration(60), "1 minute");
    assert_eq!(normalize_duration(3599), "59 minutes");
    assert_eq!(normalize_duration(3600), "1 hour");
    assert_eq!(normalize_duration(86399), "23 hours");
    assert_eq!(normalize_duration(86400), "1 day 0 hours");
    assert_eq!(normalize_duration(2 * 86400 + 3600), "2 days 1 hour");
    assert_eq!(normalize_duration(-5), "-5 seconds");
    assert_eq!(manager_duration(0), "0 seconds");
}

#[test]
fn mirror_health_placeholder() {
    assert_eq!(test_mirror_health(), Some("test".to_string()));
    assert_eq!(FetchPacmanStats.get_mirror_health(), Some("test".to_string()));
}

#[test]
fn path_expansion() {
    assert_eq!(expand_tilde_with("~/x", Some("/home/u")), "/home/u/x");
    assert_eq!(expand_tilde_with("~", Some("/home/u")), "/home/u");
    assert_eq!(expand_tilde_with("~x", Some("/home/u")), "~x");
    assert_eq!(expand_tilde_with("~/x", None), "~/x");
    assert_eq!(expand_tilde("/abs"), "/abs");
    assert_eq!(expand_path("~other", "/h"), "/hother");
    assert_eq!(expand_path("rel", "/h"), "rel");
}

#[test]
fn disk_usage_math() {
    assert_eq!(disk_usage(100, 40, 4096), Some((60 * 4096, 100 * 4096)));
    assert_eq!(disk_usage(10, 11, 1), None);
    assert_eq!(disk_usage(u64::MAX, 0, 2), None);
}

#[test]
fn numbers() {
    assert_eq!(parse_u8("+7"), Some(7));
    assert_eq!(parse_u8("255"), Some(255));
    assert_eq!(parse_u8("256"), None);
    assert_eq!(parse_u8("+"), None);
    assert_eq!(parse_u8("-1"), None);
    assert_eq!(parse_i64("-9223372036854775808"), Some(i64::MIN));
    assert_eq!(parse_i64("9223372036854775807"), Some(i64::MAX));
    assert_eq!(parse_i64("9223372036854775808"), None);
    assert_eq!(parse_i64("-"), None);
}

#[test]
fn art_selection() {
    assert_eq!(get_art("NONE"), Some(vec![]));
    assert_eq!(get_art("/path/to/art"), None);
    assert_eq!(get_art("~/art"), None);
    assert_eq!(get_art("./art"), None);
    assert_eq!(get_art("PACMAN_SMALL").unwrap().len(), PACMAN_SMALL.len());
    assert_eq!(get_art("whatever").unwrap(), PACMAN_DEFAULT.iter().map(|s| s.to_string()).collect::<Vec<_>>());
    assert_eq!(get_art("ab\n\x1b[31mc\x1b[0m\nlong"), Some(vec!["ab  ".to_string(), "\x1b[31mc\x1b[0m   ".to_string(), "long".to_string()]));
}

#[test]
fn width_normalization() {
    assert_eq!(normalize_width(vec![]), Vec::<String>::new());
    assert_eq!(normalize_width(vec!["⠿⠿".into(), "a".into()]), vec!["⠿⠿", "a "]);
}
