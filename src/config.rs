//! The configuration's shape and its defaults, the reading of the stat
//! list, and the upgrade of first-version configuration files.
use vstd::prelude::*;
use std::collections::HashMap;
use crate::stats::{parse_spec, StatEntry, StatId, StatIdOrTitle};
use crate::text::{contains, contains_str, starts_with, starts_with_str};

verus! {

#[derive(Clone, Copy, Debug, PartialEq, Eq, Structural)]
pub enum TitleStyle {
    Stacked,
    Embedded,
}

impl Default for TitleStyle {
    fn default() -> (r: Self)
        ensures
            r == TitleStyle::Stacked,
    {
        TitleStyle::Stacked
    }
}

#[derive(Clone, Debug)]
pub enum TitleWidth {
    Named(String),
    Fixed(usize),
}

impl Default for TitleWidth {
    fn default() -> (r: Self)
        ensures
            r matches TitleWidth::Named(n) && n@ == "title"@,
    {
        TitleWidth::Named("title".to_owned())
    }
}

#[derive(Clone, Copy, Debug, PartialEq, Eq, Structural)]
pub enum TitleAlign {
    Left,
    Center,
    Right,
}

#[derive(Clone, Debug)]
pub struct CacheConfig {
    pub ttl_minutes: u32,
}

/// Minutes a synced database cache stays fresh.
pub fn default_ttl() -> (r: u32)
    ensures
        r == 15,
{
    15
}

impl Default for CacheConfig {
    fn default() -> (r: Self)
        ensures
            r.ttl_minutes == 15,
    {
        CacheConfig { ttl_minutes: default_ttl() }
    }
}

#[derive(Clone, Debug)]
pub struct DiskConfig {
    pub path: String,
}

pub fn default_disk_path() -> (r: String)
    ensures
        r@ == "/"@,
{
    "/".to_owned()
}

impl Default for DiskConfig {
    fn default() -> (r: Self)
        ensures
            r.path@ == "/"@,
    {
        DiskConfig { path: default_disk_path() }
    }
}

#[derive(Clone, Debug)]
pub struct PaletteConfig {
    pub style: String,
    pub spacing: usize,
}

pub fn default_palette_style() -> (r: String)
    ensures
        r@ == "blocks"@,
{
    "blocks".to_owned()
}

pub fn default_palette_spacing() -> (r: usize)
    ensures
        r == 1,
{
    1
}

impl Default for PaletteConfig {
    fn default() -> (r: Self)
        ensures
            r.style@ == "blocks"@,
            r.spacing == 1,
    {
        PaletteConfig { style: default_palette_style(), spacing: default_palette_spacing() }
    }
}

#[derive(Clone, Debug)]
pub struct GlyphConfig {
    pub glyph: String,
    pub color: String,
    pub align: bool,
}

pub fn default_glyph() -> (r: String)
    ensures
        r@ == ": "@,
{
    ": ".to_owned()
}

impl Default for GlyphConfig {
    fn default() -> (r: Self)
        ensures
            r.glyph@ == ": "@,
            r.color@ == Seq::<char>::empty(),
            !r.align,
    {
        GlyphConfig { glyph: default_glyph(), color: String::new(), align: false }
    }
}

#[derive(Clone, Debug)]
pub struct StatColorOverride {
    pub label: Option<String>,
    pub stat: Option<String>,
}

impl Default for StatColorOverride {
    fn default() -> (r: Self)
        ensures
            r.label is None,
            r.stat is None,
    {
        StatColorOverride { label: None, stat: None }
    }
}

#[derive(Clone, Debug)]
pub struct ColorsConfig {
    pub label: String,
    pub stat: String,
    /// Per-stat colors, keyed by the stat's configuration key.
    pub overrides: HashMap<String, StatColorOverride>,
}

pub fn default_label_color() -> (r: String)
    ensures
        r@ == "bright_yellow"@,
{
    "bright_yellow".to_owned()
}

impl Default for ColorsConfig {
    fn default() -> (r: Self)
        ensures
            r.label@ == "bright_yellow"@,
            r.stat@ == Seq::<char>::empty(),
            r.overrides@ == Map::<String, StatColorOverride>::empty(),
    {
        ColorsConfig { label: default_label_color(), stat: String::new(), overrides: HashMap::new() }
    }
}

#[derive(Clone, Debug)]
pub struct TitleConfig {
    pub text: String,
    pub text_color: String,
    pub line_color: String,
    pub style: TitleStyle,
    pub width: TitleWidth,
    pub align: Option<TitleAlign>,
    pub line: String,
    pub left_cap: String,
    pub right_cap: String,
    pub padding: usize,
}

pub fn default_title_text() -> (r: String)
    ensures
        r@ == "default"@,
{
    "default".to_owned()
}

pub fn default_title_text_color() -> (r: String)
    ensures
        r@ == "bright_yellow"@,
{
    "bright_yellow".to_owned()
}

pub fn default_title_line_color() -> (r: String)
    ensures
        r@ == "none"@,
{
    "none".to_owned()
}

pub fn default_line_char() -> (r: String)
    ensures
        r@ == "-"@,
{
    "-".to_owned()
}

impl Default for TitleConfig {
    fn default() -> (r: Self)
        ensures
            r.text@ == "default"@,
            r.text_color@ == "bright_yellow"@,
            r.line_color@ == "none"@,
            r.style == TitleStyle::Stacked,
            r.width matches TitleWidth::Named(n) && n@ == "title"@,
            r.align is None,
            r.line@ == "-"@,
            r.left_cap@ == Seq::<char>::empty(),
            r.right_cap@ == Seq::<char>::empty(),
            r.padding == 0,
    {
        TitleConfig {
            text: default_title_text(),
            text_color: default_title_text_color(),
            line_color: default_title_line_color(),
            style: TitleStyle::default(),
            width: TitleWidth::default(),
            align: None,
            line: default_line_char(),
            left_cap: String::new(),
            right_cap: String::new(),
            padding: 0,
        }
    }
}

#[derive(Clone, Debug)]
pub struct DisplayConfig {
    pub stats: Vec<String>,
    pub ascii: String,
    pub ascii_color: String,
    pub image: String,
    pub glyph: GlyphConfig,
    pub palette: PaletteConfig,
    pub colors: ColorsConfig,
    /// Label overrides, keyed by the stat's configuration key.
    pub labels: HashMap<String, String>,
    pub title: TitleConfig,
    /// Named titles, for `title.<name>` entries of the stat list.
    pub titles: HashMap<String, TitleConfig>,
}

pub fn default_ascii() -> (r: String)
    ensures
        r@ == "PACMAN_DEFAULT"@,
{
    "PACMAN_DEFAULT".to_owned()
}

pub fn default_ascii_color() -> (r: String)
    ensures
        r@ == "yellow"@,
{
    "yellow".to_owned()
}

/// The stat list shown when none is configured.
pub open spec fn default_stats_spec() -> Seq<Seq<char>> {
    seq![
        "title"@,
        "installed"@,
        "upgradable"@,
        "last_update"@,
        "download_size"@,
        "installed_size"@,
        "net_upgrade_size"@,
        "orphaned_packages"@,
        "cache_size"@,
        "disk"@,
        "mirror_url"@,
        "mirror_health"@,
        "colors"@,
    ]
}

pub open spec fn strings_view(v: Seq<String>) -> Seq<Seq<char>> {
    v.map_values(|s: String| s@)
}

pub fn default_stats() -> (r: Vec<String>)
    ensures
        strings_view(r@) == default_stats_spec(),
{
    let v = vec![
        "title".to_owned(),
        "installed".to_owned(),
        "upgradable".to_owned(),
        "last_update".to_owned(),
        "download_size".to_owned(),
        "installed_size".to_owned(),
        "net_upgrade_size".to_owned(),
        "orphaned_packages".to_owned(),
        "cache_size".to_owned(),
        "disk".to_owned(),
        "mirror_url".to_owned(),
        "mirror_health".to_owned(),
        "colors".to_owned(),
    ];
    assert(strings_view(v@) =~= default_stats_spec());
    v
}

impl Default for DisplayConfig {
    fn default() -> (r: Self)
        ensures
            strings_view(r.stats@) == default_stats_spec(),
            r.ascii@ == "PACMAN_DEFAULT"@,
            r.ascii_color@ == "yellow"@,
            r.image@ == Seq::<char>::empty(),
            r.labels@ == Map::<String, String>::empty(),
            r.titles@ == Map::<String, TitleConfig>::empty(),
            r.palette.style@ == "blocks"@,
            r.palette.spacing == 1,
            r.glyph.glyph@ == ": "@,
            r.colors.label@ == "bright_yellow"@,
            r.title.text@ == "default"@,
    {
        DisplayConfig {
            stats: default_stats(),
            ascii: default_ascii(),
            ascii_color: default_ascii_color(),
            image: String::new(),
            glyph: GlyphConfig::default(),
            palette: PaletteConfig::default(),
            colors: ColorsConfig::default(),
            labels: HashMap::new(),
            title: TitleConfig::default(),
            titles: HashMap::new(),
        }
    }
}

/// The entries of a stat list that read correctly, in order; the others
/// are left out.
pub open spec fn parsed_entries(stats: Seq<Seq<char>>) -> Seq<StatEntry>
    decreases stats.len(),
{
    if stats.len() == 0 {
        Seq::empty()
    } else {
        let rest = parsed_entries(stats.drop_last());
        match parse_spec(stats.last()) {
            Ok(e) => rest.push(e),
            Err(_) => rest,
        }
    }
}

pub open spec fn entries_view(v: Seq<StatIdOrTitle>) -> Seq<StatEntry> {
    v.map_values(|e: StatIdOrTitle| e@)
}

impl DisplayConfig {
    /// The configured stat list, read; unreadable entries are skipped.
    pub fn parsed_stats(&self) -> (r: Vec<StatIdOrTitle>)
        ensures
            entries_view(r@) == parsed_entries(strings_view(self.stats@)),
    {
        let mut out: Vec<StatIdOrTitle> = Vec::new();
        let mut i: usize = 0;
        let ghost sv = strings_view(self.stats@);
        while i < self.stats.len()
            invariant
                i <= self.stats@.len(),
                sv == strings_view(self.stats@),
                entries_view(out@) == parsed_entries(sv.take(i as int)),
            decreases self.stats@.len() - i,
        {
            proof {
                assert(sv.take(i + 1).drop_last() =~= sv.take(i as int));
                assert(sv.take(i + 1).last() == self.stats@[i as int]@);
            }
            let r = StatId::parse(self.stats[i].as_str());
            match r {
                Ok(e) => {
                    let ghost before = out@;
                    out.push(e);
                    proof {
                        assert(entries_view(out@) =~= entries_view(before).push(out@.last()@));
                    }
                },
                Err(_) => {},
            }
            i += 1;
        }
        proof {
            assert(sv.take(self.stats@.len() as int) =~= sv);
        }
        out
    }
}

#[derive(Clone, Debug)]
pub struct Config {
    pub default_args: String,
    pub display: DisplayConfig,
    pub cache: CacheConfig,
    pub disk: DiskConfig,
}

impl Default for Config {
    fn default() -> (r: Self)
        ensures
            r.default_args@ == Seq::<char>::empty(),
            strings_view(r.display.stats@) == default_stats_spec(),
            r.display.ascii@ == "PACMAN_DEFAULT"@,
            r.cache.ttl_minutes == 15,
            r.disk.path@ == "/"@,
    {
        Config {
            default_args: String::new(),
            display: DisplayConfig::default(),
            cache: CacheConfig::default(),
            disk: DiskConfig::default(),
        }
    }
}

/// A first-version configuration: it has none of the sections that later
/// versions added.
pub open spec fn needs_migration_spec(contents: Seq<char>) -> bool {
    !contains(contents, "[display.glyph]"@) && !contains(contents, "[display.titles"@)
        && !contains(contents, "[display.palette]"@)
}

/// Some entry of the list starts with `prefix`.
pub open spec fn any_starts_with(v: Seq<Seq<char>>, prefix: Seq<char>) -> bool {
    exists|i: int| 0 <= i < v.len() && starts_with(#[trigger] v[i], prefix)
}

/// A first-version stat list brought up to date: a header title in front
/// when there is no title entry, and a blank line and the color palette at
/// the end when there is no palette entry.
pub open spec fn migrate_stats_spec(v: Seq<Seq<char>>) -> Seq<Seq<char>> {
    let with_title = if any_starts_with(v, "title"@) {
        v
    } else {
        seq!["title.header"@] + v
    };
    if any_starts_with(v, "colors"@) {
        with_title
    } else {
        with_title + seq!["newline"@, "colors"@]
    }
}

fn any_entry_starts_with(v: &Vec<String>, prefix: &str) -> (r: bool)
    ensures
        r == any_starts_with(strings_view(v@), prefix@),
{
    let mut i: usize = 0;
    while i < v.len()
        invariant
            i <= v@.len(),
            forall|j: int| 0 <= j < i ==> !starts_with(#[trigger] strings_view(v@)[j], prefix@),
        decreases v@.len() - i,
    {
        if starts_with_str(v[i].as_str(), prefix) {
            assert(strings_view(v@)[i as int] == v@[i as int]@);
            return true;
        }
        i += 1;
    }
    false
}

impl Config {
    pub fn needs_migration(contents: &str) -> (r: bool)
        ensures
            r == needs_migration_spec(contents@),
    {
        !contains_str(contents, "[display.glyph]") && !contains_str(contents, "[display.titles")
            && !contains_str(contents, "[display.palette]")
    }

    /// Brings a first-version stat list up to date.
    pub fn migrate_stats(stats: Vec<String>) -> (r: Vec<String>)
        ensures
            strings_view(r@) == migrate_stats_spec(strings_view(stats@)),
    {
        let ghost v = strings_view(stats@);
        let has_title = any_entry_starts_with(&stats, "title");
        let has_colors = any_entry_starts_with(&stats, "colors");
        let mut out: Vec<String> = Vec::new();
        if !has_title {
            out.push("title.header".to_owned());
        }
        let mut i: usize = 0;
        let ghost head = strings_view(out@);
        while i < stats.len()
            invariant
                i <= stats@.len(),
                v == strings_view(stats@),
                strings_view(out@) == head + v.take(i as int),
            decreases stats@.len() - i,
        {
            let c = stats[i].clone();
            let ghost before = out@;
            out.push(c);
            proof {
                assert(v[i as int] == c@);
                assert(strings_view(out@) =~= strings_view(before).push(c@));
                assert(v.take(i + 1) =~= v.take(i as int).push(c@));
                assert(strings_view(out@) =~= head + v.take(i + 1));
            }
            i += 1;
        }
        if !has_colors {
            out.push("newline".to_owned());
            out.push("colors".to_owned());
        }
        proof {
            assert(v.take(stats@.len() as int) =~= v);
            if has_title {
                assert(head =~= Seq::<Seq<char>>::empty());
            } else {
                assert(head =~= seq!["title.header"@]);
            }
            assert(strings_view(out@) =~= migrate_stats_spec(v));
        }
        out
    }
}

/// The stat list written as a TOML array, one quoted entry per line.
pub open spec fn stats_toml_spec(v: Seq<Seq<char>>) -> Seq<char>
    decreases v.len(),
{
    if v.len() == 0 {
        "stats = [\n"@
    } else if v.len() == 1 {
        "stats = [\n"@ + "    \""@ + v[0] + "\""@
    } else {
        stats_toml_spec(v.drop_last()) + ",\n"@ + "    \""@ + v.last() + "\""@
    }
}

/// The TOML text for a stat list: `stats = [`, the entries, `,` and `]`.
pub fn stats_toml(stats: &Vec<String>) -> (r: String)
    ensures
        r@ == stats_toml_spec(strings_view(stats@)) + ",\n]"@,
{
    let ghost v = strings_view(stats@);
    let mut s = "stats = [\n".to_owned();
    let mut i: usize = 0;
    while i < stats.len()
        invariant
            i <= stats@.len(),
            v == strings_view(stats@),
            s@ == stats_toml_spec(v.take(i as int)),
        decreases stats@.len() - i,
    {
        proof {
            assert(v.take(i + 1).drop_last() =~= v.take(i as int));
            assert(v.take(i + 1).last() == stats@[i as int]@);
            if i == 0 {
                assert(v.take(1) =~= seq![stats@[0]@]);
            }
        }
        if i > 0 {
            s.append(",\n");
        }
        s.append("    \"");
        s.append(stats[i].as_str());
        s.append("\"");
        proof {
            assert(s@ =~= stats_toml_spec(v.take(i + 1)));
        }
        i += 1;
    }
    proof {
        assert(v.take(stats@.len() as int) =~= v);
    }
    s.append(",\n]");
    s
}

} // verus!
