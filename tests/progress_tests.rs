use pacfetch::progress::{DbSyncState, SyncProgress};
use pacfetch::session::{headless_step, interactive_exited, interactive_step, Liveness, LoopStep, ReadKind, SyncSession};
use pacfetch::text::strip_ansi;

#[test]
fn tracker_scenario_sequence() {
    let mut p = SyncProgress::new();
    for line in ["core 10%", "core 55%", "core is up to date", "extra 30%"] {
        p.update_from_line(line);
    }
    assert_eq!(p.core, DbSyncState::Complete);
    assert_eq!(p.extra, DbSyncState::Syncing(30));
    assert_eq!(p.multilib, DbSyncState::Syncing(0));
    assert_eq!(p.format(), "core ✓ | extra 30% | multilib 0%");
}

#[test]
fn initial_format() {
    assert_eq!(SyncProgress::new().format(), "core 0% | extra 0% | multilib 0%");
    assert_eq!(SyncProgress::all_complete().format(), "core ✓ | extra ✓ | multilib ✓");
}

#[test]
fn percent_below_hundred_sets_syncing_only_that_db() {
    for n in [0u8, 1, 42, 99] {
        let mut p = SyncProgress::new();
        p.update_from_line(&format!("multilib {}%", n));
        assert_eq!(p.multilib, DbSyncState::Syncing(n));
        assert_eq!(p.core, DbSyncState::Syncing(0));
        assert_eq!(p.extra, DbSyncState::Syncing(0));
    }
}

#[test]
fn percent_hundred_or_more_completes() {
    for n in [100u8, 150, 255] {
        let mut p = SyncProgress::new();
        p.update_from_line(&format!("extra {}%", n));
        assert_eq!(p.extra, DbSyncState::Complete);
        assert_eq!(p.core, DbSyncState::Syncing(0));
    }
}

#[test]
fn percent_beyond_u8_is_ignored() {
    let mut p = SyncProgress::new();
    p.update_from_line("core 256%");
    assert_eq!(p, SyncProgress::new());
}

#[test]
fn up_to_date_line_completes_named_db() {
    let mut p = SyncProgress::new();
    p.update_from_line("  multilib is up to date  ");
    assert_eq!(p.multilib, DbSyncState::Complete);
    assert_eq!(p.core, DbSyncState::Syncing(0));
}

#[test]
fn unknown_name_and_malformed_percent_change_nothing() {
    let mut p = SyncProgress::new();
    p.update_from_line("core 20%");
    let before = p;
    for line in ["community 50%", "core 5x%", "core 50", "core -5%", "core %", "core", "", "testing is up to date"] {
        p.update_from_line(line);
        assert_eq!(p, before, "line {:?}", line);
    }
}

#[test]
fn progress_line_with_escapes_and_middle_words() {
    let mut p = SyncProgress::new();
    p.update_from_line("\x1b[1m core  1.2 MiB  3.4 MiB/s 00:01 [####] 77%\x1b[0m");
    assert_eq!(p.core, DbSyncState::Syncing(77));
    p.update_from_line("extra +12%");
    assert_eq!(p.extra, DbSyncState::Syncing(12));
}

#[test]
fn format_state_texts() {
    assert_eq!(SyncProgress::format_state(DbSyncState::Syncing(7)), "7%");
    assert_eq!(SyncProgress::format_state(DbSyncState::Complete), "✓");
}

#[test]
fn strip_ansi_removes_csi() {
    assert_eq!(strip_ansi("\x1b[1;33mhello\x1b[0m"), "hello");
}

#[test]
fn strip_ansi_unterminated_at_end() {
    assert_eq!(strip_ansi("\x1b[31"), "");
    assert_eq!(strip_ansi("abc\x1b"), "abc");
    assert_eq!(strip_ansi("\x1b]0;title"), "");
}

#[test]
fn strip_ansi_osc_and_two_char_escapes() {
    assert_eq!(strip_ansi("a\x1b]0;title\x07b"), "ab");
    assert_eq!(strip_ansi("a\x1b]0;title\x1b\\b"), "ab");
    assert_eq!(strip_ansi("a\x1b]0;t\x1bxb"), "axb");
    assert_eq!(strip_ansi("a\x1b(Bb"), "aBb");
    assert_eq!(strip_ansi("ünï ⠿ ✓"), "ünï ⠿ ✓");
}

#[test]
fn sync_session_feeds_lines_on_cr_and_lf() {
    let mut s = SyncSession::new();
    let fed = s.feed("core 10%\rcore 40%\r\n\nextra 5");
    assert_eq!(fed, 2);
    assert_eq!(s.progress.core, DbSyncState::Syncing(40));
    assert_eq!(s.buffer, "extra 5");
    let fed = s.feed("0%\n");
    assert_eq!(fed, 1);
    assert_eq!(s.progress.extra, DbSyncState::Syncing(50));
}

#[test]
fn sync_session_liveness() {
    let mut s = SyncSession::new();
    s.feed("multilib is up to date");
    assert_eq!(s.on_liveness(Liveness::Alive), None);
    assert_eq!(s.progress.multilib, DbSyncState::Syncing(0));
    assert_eq!(s.on_liveness(Liveness::Exited), Some(true));
    assert_eq!(s.progress.multilib, DbSyncState::Complete);
    assert_eq!(s.buffer, "");
    let mut t = SyncSession::new();
    assert_eq!(t.on_liveness(Liveness::Unknown), Some(false));
}

#[test]
fn loop_steps() {
    assert_eq!(headless_step(ReadKind::Data), LoopStep::Continue);
    assert_eq!(headless_step(ReadKind::Empty), LoopStep::Continue);
    assert_eq!(headless_step(ReadKind::Transient), LoopStep::Sleep);
    assert_eq!(headless_step(ReadKind::Failed), LoopStep::Stop);
    assert_eq!(interactive_step(false, ReadKind::Transient), LoopStep::Sleep);
    assert_eq!(interactive_step(true, ReadKind::Transient), LoopStep::Stop);
    assert_eq!(interactive_step(true, ReadKind::Empty), LoopStep::Stop);
    assert_eq!(interactive_step(false, ReadKind::Empty), LoopStep::Continue);
    assert_eq!(interactive_step(true, ReadKind::Data), LoopStep::Continue);
    assert_eq!(interactive_step(false, ReadKind::Failed), LoopStep::Stop);
    assert!(!interactive_exited(false, Liveness::Alive));
    assert!(interactive_exited(false, Liveness::Exited));
    assert!(interactive_exited(false, Liveness::Unknown));
    assert!(interactive_exited(true, Liveness::Alive));
}
