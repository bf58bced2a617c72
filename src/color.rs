//! Color names and `#rrggbb` codes from the configuration, read into the
//! terminal colors they stand for.
use vstd::prelude::*;
use crate::text::{str_eq, trim_str};

verus! {

/// A terminal color: the sixteen named ones, or a 24-bit one.
#[derive(Clone, Copy, Debug, PartialEq, Eq, Structural)]
pub enum TermColor {
    Black,
    DarkRed,
    DarkGreen,
    DarkYellow,
    DarkBlue,
    DarkMagenta,
    DarkCyan,
    White,
    Grey,
    Red,
    Green,
    Yellow,
    Blue,
    Magenta,
    Cyan,
    DarkGrey,
    Rgb { r: u8, g: u8, b: u8 },
}

pub open spec fn named_spec(s: Seq<char>) -> Option<TermColor> {
    if s == "black"@ {
        Some(TermColor::Black)
    } else if s == "red"@ || s == "dark_red"@ {
        Some(TermColor::DarkRed)
    } else if s == "green"@ || s == "dark_green"@ {
        Some(TermColor::DarkGreen)
    } else if s == "yellow"@ || s == "dark_yellow"@ {
        Some(TermColor::DarkYellow)
    } else if s == "blue"@ || s == "dark_blue"@ {
        Some(TermColor::DarkBlue)
    } else if s == "magenta"@ || s == "dark_magenta"@ {
        Some(TermColor::DarkMagenta)
    } else if s == "cyan"@ || s == "dark_cyan"@ {
        Some(TermColor::DarkCyan)
    } else if s == "white"@ {
        Some(TermColor::White)
    } else if s == "grey"@ || s == "gray"@ {
        Some(TermColor::Grey)
    } else if s == "bright_red"@ {
        Some(TermColor::Red)
    } else if s == "bright_green"@ {
        Some(TermColor::Green)
    } else if s == "bright_yellow"@ {
        Some(TermColor::Yellow)
    } else if s == "bright_blue"@ {
        Some(TermColor::Blue)
    } else if s == "bright_magenta"@ {
        Some(TermColor::Magenta)
    } else if s == "bright_cyan"@ {
        Some(TermColor::Cyan)
    } else if s == "bright_white"@ {
        Some(TermColor::White)
    } else if s == "dark_grey"@ || s == "dark_gray"@ {
        Some(TermColor::DarkGrey)
    } else {
        None
    }
}

/// The color a lower-case name stands for.
pub fn parse_named(s: &str) -> (r: Option<TermColor>)
    ensures
        r == named_spec(s@),
{
    if str_eq(s, "black") {
        Some(TermColor::Black)
    } else if str_eq(s, "red") || str_eq(s, "dark_red") {
        Some(TermColor::DarkRed)
    } else if str_eq(s, "green") || str_eq(s, "dark_green") {
        Some(TermColor::DarkGreen)
    } else if str_eq(s, "yellow") || str_eq(s, "dark_yellow") {
        Some(TermColor::DarkYellow)
    } else if str_eq(s, "blue") || str_eq(s, "dark_blue") {
        Some(TermColor::DarkBlue)
    } else if str_eq(s, "magenta") || str_eq(s, "dark_magenta") {
        Some(TermColor::DarkMagenta)
    } else if str_eq(s, "cyan") || str_eq(s, "dark_cyan") {
        Some(TermColor::DarkCyan)
    } else if str_eq(s, "white") {
        Some(TermColor::White)
    } else if str_eq(s, "grey") || str_eq(s, "gray") {
        Some(TermColor::Grey)
    } else if str_eq(s, "bright_red") {
        Some(TermColor::Red)
    } else if str_eq(s, "bright_green") {
        Some(TermColor::Green)
    } else if str_eq(s, "bright_yellow") {
        Some(TermColor::Yellow)
    } else if str_eq(s, "bright_blue") {
        Some(TermColor::Blue)
    } else if str_eq(s, "bright_magenta") {
        Some(TermColor::Magenta)
    } else if str_eq(s, "bright_cyan") {
        Some(TermColor::Cyan)
    } else if str_eq(s, "bright_white") {
        Some(TermColor::White)
    } else if str_eq(s, "dark_grey") || str_eq(s, "dark_gray") {
        Some(TermColor::DarkGrey)
    } else {
        None
    }
}

/// The value of a hexadecimal digit, either case.
pub open spec fn hex_value(c: char) -> Option<u8> {
    if '0' <= c && c <= '9' {
        Some((c as u32 - '0' as u32) as u8)
    } else if 'a' <= c && c <= 'f' {
        Some((c as u32 - 'a' as u32 + 10) as u8)
    } else if 'A' <= c && c <= 'F' {
        Some((c as u32 - 'A' as u32 + 10) as u8)
    } else {
        None
    }
}

fn hex_digit(c: char) -> (r: Option<u8>)
    ensures
        r == hex_value(c),
{
    if '0' <= c && c <= '9' {
        Some((c as u32 - '0' as u32) as u8)
    } else if 'a' <= c && c <= 'f' {
        Some((c as u32 - 'a' as u32 + 10) as u8)
    } else if 'A' <= c && c <= 'F' {
        Some((c as u32 - 'A' as u32 + 10) as u8)
    } else {
        None
    }
}

/// Two characters read as a hexadecimal `u8`, as `u8::from_str_radix`
/// reads them: two digits, or `+` and one digit.
pub open spec fn hex_pair(a: char, b: char) -> Option<u8> {
    if a == '+' {
        hex_value(b)
    } else {
        match (hex_value(a), hex_value(b)) {
            (Some(x), Some(y)) => Some((x * 16 + y) as u8),
            _ => None,
        }
    }
}

fn read_hex_pair(a: char, b: char) -> (r: Option<u8>)
    ensures
        r == hex_pair(a, b),
{
    if a == '+' {
        return hex_digit(b);
    }
    match (hex_digit(a), hex_digit(b)) {
        (Some(x), Some(y)) => Some(x * 16 + y),
        _ => None,
    }
}

/// `#` and six characters, read as three hexadecimal pairs.
pub open spec fn hex_spec(s: Seq<char>) -> Option<TermColor> {
    if s.len() == 7 && s[0] == '#' {
        match (hex_pair(s[1], s[2]), hex_pair(s[3], s[4]), hex_pair(s[5], s[6])) {
            (Some(r), Some(g), Some(b)) => Some(TermColor::Rgb { r, g, b }),
            _ => None,
        }
    } else {
        None
    }
}

/// Reads a `#rrggbb` color.
pub fn parse_hex(s: &str) -> (r: Option<TermColor>)
    ensures
        r == hex_spec(s@),
{
    if s.unicode_len() != 7 || s.get_char(0) != '#' {
        return None;
    }
    let r = read_hex_pair(s.get_char(1), s.get_char(2));
    let g = read_hex_pair(s.get_char(3), s.get_char(4));
    let b = read_hex_pair(s.get_char(5), s.get_char(6));
    match (r, g, b) {
        (Some(r), Some(g), Some(b)) => Some(TermColor::Rgb { r, g, b }),
        _ => None,
    }
}

/// What a lower-cased, trimmed color setting names: no color for `none`,
/// a code for `#...`, else a named color.
pub open spec fn color_spec(s: Seq<char>) -> Option<TermColor> {
    if s == "none"@ {
        None
    } else if s.len() > 0 && s[0] == '#' {
        hex_spec(s)
    } else {
        named_spec(s)
    }
}

/// Reads a color setting that is already trimmed and in lower case.
pub fn parse_lowered_color(s: &str) -> (r: Option<TermColor>)
    ensures
        r == color_spec(s@),
{
    if str_eq(s, "none") {
        None
    } else if s.unicode_len() > 0 && s.get_char(0) == '#' {
        parse_hex(s)
    } else {
        parse_named(s)
    }
}

/// The lower-case form of a text, character by character as Unicode
/// defines it.
pub uninterp spec fn lower_of(s: Seq<char>) -> Seq<char>;

/// Relies on `str::to_lowercase`: the result depends on the text alone.
#[verifier::external_body]
fn lowercase(s: &str) -> (r: String)
    ensures
        r@ == lower_of(s@),
{
    s.to_lowercase()
}

/// Reads a color setting: surrounding whitespace and case do not matter.
pub fn parse_color(s: &str) -> (r: Option<TermColor>)
    ensures
        r == color_spec(lower_of(crate::text::trim(s@))),
{
    let t = trim_str(s);
    let l = lowercase(t.as_str());
    parse_lowered_color(l.as_str())
}

} // verus!
