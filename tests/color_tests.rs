use pacfetch::color::{parse_color, parse_hex, parse_lowered_color, parse_named, TermColor};

#[test]
fn named_colors() {
    assert_eq!(parse_named("red"), Some(TermColor::DarkRed));
    assert_eq!(parse_named("bright_red"), Some(TermColor::Red));
    assert_eq!(parse_named("gray"), Some(TermColor::Grey));
    assert_eq!(parse_named("dark_gray"), Some(TermColor::DarkGrey));
    assert_eq!(parse_named("bright_white"), Some(TermColor::White));
    assert_eq!(parse_named("purple"), None);
}

#[test]
fn hex_colors() {
    assert_eq!(parse_hex("#ff8000"), Some(TermColor::Rgb { r: 255, g: 128, b: 0 }));
    assert_eq!(parse_hex("#FFfF0a"), Some(TermColor::Rgb { r: 255, g: 255, b: 10 }));
    assert_eq!(parse_hex("#+f+f+f"), Some(TermColor::Rgb { r: 15, g: 15, b: 15 }));
    assert_eq!(parse_hex("#ff80"), None);
    assert_eq!(parse_hex("#gg0000"), None);
    assert_eq!(parse_hex("ff8000"), None);
}

#[test]
fn color_settings() {
    assert_eq!(parse_lowered_color("none"), None);
    assert_eq!(parse_lowered_color("#000000"), Some(TermColor::Rgb { r: 0, g: 0, b: 0 }));
    assert_eq!(parse_color("  RED "), Some(TermColor::DarkRed));
    assert_eq!(parse_color("Bright_Yellow"), Some(TermColor::Yellow));
    assert_eq!(parse_color("#ABCDEF"), Some(TermColor::Rgb { r: 0xab, g: 0xcd, b: 0xef }));
    assert_eq!(parse_color("NONE"), None);
}
