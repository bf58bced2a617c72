//! The ASCII art shown beside the stats: built-in pieces, inline art from
//! the configuration, and padding every line to one visible width.
use vstd::prelude::*;
use crate::scan::{lines, lines_from};
use crate::text::{strip_ansi, strip_escapes, str_eq};

verus! {

/// The large built-in art.
pub const PACMAN_DEFAULT: [&'static str; 16] = [
    "⠀⠀⠀⠀⠀⠀⠀⠀⠀⠀⠀⢀⣀⣤⣤⣤⣤⣤⣤⣤⣤⣀⣀⠀⠀⠀⠀⠀⠀⠀⠀⠀⠀⠀⠀⠀⠀⠀⠀",
    "⠀⠀⠀⠀⠀⠀⠀⢀⣤⣶⣿⣿⣿⣿⣿⣿⣿⣿⣿⣿⣿⣿⣿⣿⣶⣤⡀⠀⠀⠀⠀⠀⠀⠀⠀⠀⠀⠀⠀",
    "⠀⠀⠀⠀⠀⣠⣾⣿⣿⣿⣿⣿⣿⣿⣿⣿⣿⣿⣿⣿⣿⣿⣿⣿⣿⣿⣿⣷⡄  ⠀⠀⠀⠀⠀⠀⠀⠀",
    "⠀⠀⠀⢠⣾⣿⣿⣿⣿⣿⣿⣿⣿⣿⣿⣿⣿⣿⠟⠛⠻⣿⣿⣿⣿⣿⣿⣿⣿⣆⠀⠀ ⠀⠀⠀⠀⠀⠀",
    "⠀⠀⣰⣿⣿⣿⣿⣿⣿⣿⣿⣿⣿⣿⣿⣿⣿⡇⠀⠀⠀⢸⣿⣿⣿⣿⣿⣿⣿⡿⠃⠀⠀⠀⠀⠀⠀⠀⠀",
    "⠀⣸⣿⣿⣿⣿⣿⣿⣿⣿⣿⣿⣿⣿⣿⣿⣿⣿⣦⣤⣴⣿⣿⣿⣿⣿⡿⠛⠁⠀⠀⠀⠀⠀⠀⠀⠀⠀⠀",
    "⢰⣿⣿⣿⣿⣿⣿⣿⣿⣿⣿⣿⣿⣿⣿⣿⣿⣿⣿⣿⣿⣿⣿⠿⠛⠁⠀⠀⠀⠀⠀⠀⠀⠀⠀⠀⠀⠀⠀",
    "⣾⣿⣿⣿⣿⣿⣿⣿⣿⣿⣿⣿⣿⣿⣿⣿⣿⣿⣿⣿⠿⠋⠁⠀⠀⠀⣴⣿⣿⣿⣆⠀⠀⠀⣴⣿⣿⣿⣆",
    "⢿⣿⣿⣿⣿⣿⣿⣿⣿⣿⣿⣿⣿⣿⣿⣿⣿⣿⣿⣷⣦⣄⠀⠀⠀⠀⢿⣿⣿⣿⠏⠀⠀⠀⢿⣿⣿⣿⠏",
    "⠸⣿⣿⣿⣿⣿⣿⣿⣿⣿⣿⣿⣿⣿⣿⣿⣿⣿⣿⣿⣿⣿⣿⣦⣄⠀⠀⠉⠉⠁⠀ ⠀⠀⠀⠉⠉⠁⠀",
    "⠀⢻⣿⣿⣿⣿⣿⣿⣿⣿⣿⣿⣿⣿⣿⣿⣿⣿⣿⣿⣿⣿⣿⣿⣿⣿⣶⣄⡀⠀⠀⠀⠀⠀⠀⠀⠀⠀⠀",
    "⠀⠀⠻⣿⣿⣿⣿⣿⣿⣿⣿⣿⣿⣿⣿⣿⣿⣿⣿⣿⣿⣿⣿⣿⣿⣿⣿⣿⣿⣷⡄⠀⠀⠀⠀⠀⠀⠀⠀",
    "⠀⠀⠀⠙⢿⣿⣿⣿⣿⣿⣿⣿⣿⣿⣿⣿⣿⣿⣿⣿⣿⣿⣿⣿⣿⣿⣿⣿⡿⠋⠀⠀⠀⠀⠀⠀⠀⠀⠀",
    "⠀⠀⠀⠀⠀⠛⢿⣿⣿⣿⣿⣿⣿⣿⣿⣿⣿⣿⣿⣿⣿⣿⣿⣿⣿⣿⡿⠋⠁⠀⠀⠀⠀⠀⠀⠀⠀⠀⠀",
    "⠀⠀⠀⠀⠀⠀⠀⠉⠻⢿⣿⣿⣿⣿⣿⣿⣿⣿⣿⣿⣿⣿⣿⠿⠛⠉⠀⠀⠀⠀⠀⠀⠀⠀⠀⠀⠀⠀⠀",
    "⠀⠀⠀⠀⠀⠀⠀⠀⠀⠀⠀⠉⠙⠛⠛⠛⠛⠛⠛⠋⠉⠀⠀⠀⠀⠀ ⠀⠀⠀⠀⠀⠀⠀⠀⠀⠀⠀⠀",
];

/// The small built-in art, as the package manager prints it.
pub const PACMAN_SMALL: [&'static str; 4] = [
    "  .--.                ",
    " / _.-' .-.  .-.  .-. ",
    " \\  '-. '-'  '-'  '-' ",
    "  '--'                ",
];

/// The visible width of a line: its characters once escapes are removed.
pub open spec fn visible_width(l: Seq<char>) -> nat {
    strip_escapes(l).len()
}

/// The widest visible width among the lines (zero for none).
pub open spec fn max_width(ls: Seq<Seq<char>>) -> nat
    decreases ls.len(),
{
    if ls.len() == 0 {
        0
    } else {
        let m = max_width(ls.drop_last());
        let w = visible_width(ls.last());
        if w > m {
            w
        } else {
            m
        }
    }
}

pub open spec fn spaces(n: nat) -> Seq<char> {
    Seq::new(n, |i: int| ' ')
}

pub open spec fn strings_of(v: Seq<String>) -> Seq<Seq<char>> {
    v.map_values(|s: String| s@)
}

proof fn lemma_max_width(ls: Seq<Seq<char>>, i: int)
    requires
        0 <= i < ls.len(),
    ensures
        visible_width(ls[i]) <= max_width(ls),
    decreases ls.len(),
{
    if i < ls.len() - 1 {
        lemma_max_width(ls.drop_last(), i);
    }
}

/// Each line padded with spaces to the widest visible width.
pub open spec fn padded(ls: Seq<Seq<char>>) -> Seq<Seq<char>> {
    Seq::new(ls.len(), |i: int| ls[i] + spaces((max_width(ls) - visible_width(ls[i])) as nat))
}

/// A configuration value that names a file to load the art from.
pub open spec fn is_art_path(c: Seq<char>) -> bool {
    c.len() > 0 && (c[0] == '/' || c[0] == '~' || c[0] == '.')
}

/// The built-in art a name selects: the small one by its name, else the large one.
pub open spec fn builtin_art(c: Seq<char>) -> Seq<Seq<char>> {
    if c == "PACMAN_SMALL"@ {
        PACMAN_SMALL@.map_values(|a: &str| a@)
    } else {
        PACMAN_DEFAULT@.map_values(|a: &str| a@)
    }
}

/// Pads every line with spaces to the widest visible width.
pub fn normalize_width(lines: Vec<String>) -> (r: Vec<String>)
    ensures
        strings_of(r@) == padded(strings_of(lines@)),
{
    let ghost ls = strings_of(lines@);
    let mut widths: Vec<usize> = Vec::new();
    let mut max: usize = 0;
    let mut i: usize = 0;
    while i < lines.len()
        invariant
            i <= lines@.len(),
            ls == strings_of(lines@),
            widths@.len() == i,
            forall|j: int| 0 <= j < i ==> widths@[j] == visible_width(#[trigger] lines@[j]@),
            max == max_width(ls.take(i as int)),
        decreases lines@.len() - i,
    {
        let w = strip_ansi(lines[i].as_str()).as_str().unicode_len();
        proof {
            assert(ls.take(i + 1).drop_last() =~= ls.take(i as int));
            assert(ls.take(i + 1).last() == lines@[i as int]@);
        }
        widths.push(w);
        if w > max {
            max = w;
        }
        i += 1;
    }
    proof {
        assert(ls.take(lines@.len() as int) =~= ls);
    }
    let mut out: Vec<String> = Vec::new();
    let mut k: usize = 0;
    while k < lines.len()
        invariant
            k <= lines@.len(),
            ls == strings_of(lines@),
            widths@.len() == lines@.len(),
            forall|j: int| 0 <= j < lines@.len() ==> widths@[j] == visible_width(#[trigger] lines@[j]@),
            max == max_width(ls),
            out@.len() == k,
            forall|j: int|
                0 <= j < k ==> (#[trigger] out@[j])@ == lines@[j]@ + spaces(
                    (max_width(ls) - visible_width(lines@[j]@)) as nat,
                ),
        decreases lines@.len() - k,
    {
        proof {
            assert(ls[k as int] == lines@[k as int]@);
            lemma_max_width(ls, k as int);
        }
        let pad = max - widths[k];
        let mut s = lines[k].clone();
        let ghost base = s@;
        let mut p: usize = 0;
        while p < pad
            invariant
                p <= pad,
                s@ == base + spaces(p as nat),
            decreases pad - p,
        {
            s.push(' ');
            assert(s@ =~= base + spaces((p + 1) as nat));
            p += 1;
        }
        out.push(s);
        k += 1;
    }
    assert(strings_of(out@) =~= padded(ls));
    out
}

/// The built-in art's lines as strings.
fn builtin(art: &[&str]) -> (r: Vec<String>)
    ensures
        strings_of(r@) == art@.map_values(|a: &str| a@),
{
    let mut v: Vec<String> = Vec::new();
    let mut i: usize = 0;
    while i < art.len()
        invariant
            i <= art@.len(),
            strings_of(v@) == art@.take(i as int).map_values(|a: &str| a@),
        decreases art@.len() - i,
    {
        let t = art[i].to_owned();
        let ghost before = v@;
        v.push(t);
        assert(strings_of(v@) =~= strings_of(before).push(art@[i as int]@));
        assert(art@.take(i + 1) =~= art@.take(i as int).push(art@[i as int]));
        assert(strings_of(v@) =~= art@.take(i + 1).map_values(|a: &str| a@));
        i += 1;
    }
    assert(art@.take(art@.len() as int) =~= art@);
    v
}

/// The lines of a text, as `str::lines` gives them.
fn split_lines(s: &str) -> (r: Vec<String>)
    ensures
        strings_of(r@) == lines(s@),
{
    let n = s.unicode_len();
    let mut v: Vec<String> = Vec::new();
    let mut i: usize = 0;
    while i < n
        invariant
            n == s@.len(),
            i <= n,
            lines(s@) == strings_of(v@) + lines_from(s@, i as int),
        decreases n - i,
    {
        let e = crate::scan::find_line_end(s, i);
        let l = crate::scan::line_at(s, i, e);
        proof {
            let rest = lines_from(s@, i as int);
            assert(rest[0] == l@);
            assert(rest.drop_first() =~= lines_from(s@, e + 1));
            assert(strings_of(v@.push(l)) =~= strings_of(v@).push(l@));
            assert(strings_of(v@) + rest =~= strings_of(v@).push(l@) + lines_from(s@, e + 1));
        }
        v.push(l);
        i = if e < n {
            e + 1
        } else {
            n
        };
    }
    assert(strings_of(v@) + lines_from(s@, n as int) =~= strings_of(v@));
    v
}

/// The art a configuration value names. `NONE` is no art; a value with a
/// newline is the art itself, padded; a path (starting with `/`, `~` or `.`)
/// gives `None`, for the caller to load and pad; `PACMAN_SMALL` is the small
/// built-in, and anything else the large one.
pub fn get_art(config: &str) -> (r: Option<Vec<String>>)
    ensures
        config@ == "NONE"@ ==> (r matches Some(v) && v@.len() == 0),
        (config@ != "NONE"@ && config@.contains('\n')) ==> (r matches Some(v) && strings_of(v@)
            == padded(lines(config@))),
        (config@ != "NONE"@ && !config@.contains('\n') && is_art_path(config@)) ==> r is None,
        (config@ != "NONE"@ && !config@.contains('\n') && !is_art_path(config@)) ==> (r matches Some(
            v,
        ) && strings_of(v@) == builtin_art(config@)),
{
    if str_eq(config, "NONE") {
        return Some(Vec::new());
    }
    let n = config.unicode_len();
    let mut i: usize = 0;
    while i < n
        invariant
            n == config@.len(),
            i <= n,
            forall|j: int| 0 <= j < i ==> config@[j] != '\n',
            config@ != "NONE"@,
        decreases n - i,
    {
        if config.get_char(i) == '\n' {
            let ls = split_lines(config);
            return Some(normalize_width(ls));
        }
        i += 1;
    }
    if n > 0 {
        let c = config.get_char(0);
        if c == '/' || c == '~' || c == '.' {
            return None;
        }
    }
    if str_eq(config, "PACMAN_SMALL") {
        Some(builtin(&PACMAN_SMALL))
    } else {
        Some(builtin(&PACMAN_DEFAULT))
    }
}

} // verus!
