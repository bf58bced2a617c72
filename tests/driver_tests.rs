use pacfetch::driver::{filter_upgrade_line, should_print, DriverOutput, InteractiveDriver, LineAssembler};

fn texts(v: &[DriverOutput]) -> Vec<String> {
    v.iter()
        .map(|o| match o {
            DriverOutput::Line(l) => format!("L:{}", l),
            DriverOutput::Prompt { text, visible, separate } => format!("P:{}:{}:{}", text, visible, separate),
            DriverOutput::Raw(r) => format!("R:{}", r),
        })
        .collect()
}

#[test]
fn prompt_switches_to_raw_once() {
    let mut d = InteractiveDriver::new(true);
    let out = d.feed("Proceed with installation? [Y/n] ");
    assert_eq!(texts(&out), vec!["P:Proceed with installation? [Y/n] :true:true"]);
    assert!(d.raw());
    let out = d.feed("another [Y/n] \n");
    assert_eq!(texts(&out), vec!["R:another [Y/n] \n"]);
    assert!(d.raw());
    let out = d.feed("\x1b[2K(1/2) downloading\r");
    assert_eq!(texts(&out), vec!["R:\x1b[2K(1/2) downloading\r"]);
    assert!(d.raw());
}

#[test]
fn rest_of_chunk_after_prompt_is_raw() {
    let mut d = InteractiveDriver::new(true);
    let out = d.feed(":: Replace foo with bar? [Y/n] xyz");
    assert_eq!(texts(&out), vec!["P::: Replace foo with bar? [Y/n] :true:false", "R:xyz"]);
}

#[test]
fn section_prompt_with_colon() {
    let mut d = InteractiveDriver::new(true);
    let out = d.feed(":: There are 2 providers available:\n:: Enter a number (default=1)]: ");
    assert_eq!(
        texts(&out),
        vec![
            "L::: There are 2 providers available:",
            "P::: Enter a number (default=1)]: :true:false"
        ]
    );
    let mut e = InteractiveDriver::new(true);
    let out = e.feed("Enter a selection (default=all)]: ");
    assert!(out.is_empty());
    assert!(!e.raw());
}

#[test]
fn noise_lines_are_dropped() {
    let mut d = InteractiveDriver::new(true);
    let out = d.feed("resolving dependencies...\r\n\nTotal Download Size:  10 MiB\npackages (1) foo-1.0\n");
    assert_eq!(texts(&out), vec!["L:packages (1) foo-1.0"]);
    let mut u = InteractiveDriver::new(false);
    let out = u.feed("resolving dependencies...\n\n");
    assert_eq!(texts(&out), vec!["L:resolving dependencies...", "L:"]);
}

#[test]
fn finish_flushes_and_resets_style() {
    let mut d = InteractiveDriver::new(true);
    d.feed("tail without newline");
    let out = d.finish();
    assert_eq!(texts(&out), vec!["L:tail without newline", "R:\x1b[0m"]);
    let mut e = InteractiveDriver::new(true);
    e.feed("   ");
    assert_eq!(texts(&e.finish()), vec!["R:\x1b[0m"]);
}

#[test]
fn filter_and_should_print() {
    assert!(!filter_upgrade_line("   "));
    assert!(!filter_upgrade_line("\x1b[1mNet Upgrade Size:\x1b[0m 3 MiB"));
    assert!(!filter_upgrade_line(":: Starting full system upgrade..."));
    assert!(!filter_upgrade_line("looking for conflicting packages..."));
    assert!(!filter_upgrade_line("Total Installed Size:  1 MiB"));
    assert!(filter_upgrade_line("(1/1) upgrading foo"));
    assert!(should_print("", false));
    assert!(!should_print("", true));
}

#[test]
fn line_assembler_rules() {
    let mut a = LineAssembler::new();
    assert_eq!(a.push('a'), None);
    assert_eq!(a.push('\r'), None);
    assert_eq!(a.partial(), "a");
    assert_eq!(a.push('\n'), Some("a".to_string()));
    assert_eq!(a.push('\n'), Some(String::new()));
    a.push('x');
    assert_eq!(a.take_partial(), "x");
    assert_eq!(a.partial(), "");
}
