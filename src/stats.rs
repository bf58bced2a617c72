//! The stats a user can ask for, their configuration keys and labels, and
//! which data sources a request needs.
use vstd::prelude::*;
use crate::text::{starts_with, starts_with_str, str_eq};

verus! {

#[derive(Clone, Copy, Debug, PartialEq, Eq, Structural)]
pub enum StatId {
    Title,
    Installed,
    Upgradable,
    LastUpdate,
    DownloadSize,
    InstalledSize,
    NetUpgradeSize,
    OrphanedPackages,
    CacheSize,
    MirrorUrl,
    MirrorHealth,
    Disk,
}

/// One entry of the configured stat list.
#[derive(Clone, Debug, PartialEq)]
pub enum StatIdOrTitle {
    Stat(StatId),
    /// `title.<name>`: a title configured under that name.
    NamedTitle(String),
    /// `title`: the default title.
    LegacyTitle,
}

/// A stat-list entry with its name as characters.
pub enum StatEntry {
    Stat(StatId),
    NamedTitle(Seq<char>),
    LegacyTitle,
}

impl View for StatIdOrTitle {
    type V = StatEntry;

    open spec fn view(&self) -> StatEntry {
        match self {
            StatIdOrTitle::Stat(id) => StatEntry::Stat(*id),
            StatIdOrTitle::NamedTitle(n) => StatEntry::NamedTitle(n@),
            StatIdOrTitle::LegacyTitle => StatEntry::LegacyTitle,
        }
    }
}

pub open spec fn key_spec(id: StatId) -> Seq<char> {
    match id {
        StatId::Title => "title"@,
        StatId::Installed => "installed"@,
        StatId::Upgradable => "upgradable"@,
        StatId::LastUpdate => "last_update"@,
        StatId::DownloadSize => "download_size"@,
        StatId::InstalledSize => "installed_size"@,
        StatId::NetUpgradeSize => "net_upgrade_size"@,
        StatId::OrphanedPackages => "orphaned_packages"@,
        StatId::CacheSize => "cache_size"@,
        StatId::MirrorUrl => "mirror_url"@,
        StatId::MirrorHealth => "mirror_health"@,
        StatId::Disk => "disk"@,
    }
}

pub open spec fn label_spec(id: StatId) -> Seq<char> {
    match id {
        StatId::Title => ""@,
        StatId::Installed => "Installed"@,
        StatId::Upgradable => "Upgradable"@,
        StatId::LastUpdate => "Last System Update"@,
        StatId::DownloadSize => "Download Size"@,
        StatId::InstalledSize => "Installed Size"@,
        StatId::NetUpgradeSize => "Net Upgrade Size"@,
        StatId::OrphanedPackages => "Orphaned Packages"@,
        StatId::CacheSize => "Package Cache"@,
        StatId::MirrorUrl => "Mirror URL"@,
        StatId::MirrorHealth => "Mirror Health"@,
        StatId::Disk => "Disk"@,
    }
}

/// The stat a configuration key names; `title` is not among them.
pub open spec fn stat_of_key(s: Seq<char>) -> Option<StatId> {
    if s == "installed"@ {
        Some(StatId::Installed)
    } else if s == "upgradable"@ {
        Some(StatId::Upgradable)
    } else if s == "last_update"@ {
        Some(StatId::LastUpdate)
    } else if s == "download_size"@ {
        Some(StatId::DownloadSize)
    } else if s == "installed_size"@ {
        Some(StatId::InstalledSize)
    } else if s == "net_upgrade_size"@ {
        Some(StatId::NetUpgradeSize)
    } else if s == "orphaned_packages"@ {
        Some(StatId::OrphanedPackages)
    } else if s == "cache_size"@ {
        Some(StatId::CacheSize)
    } else if s == "mirror_url"@ {
        Some(StatId::MirrorUrl)
    } else if s == "mirror_health"@ {
        Some(StatId::MirrorHealth)
    } else if s == "disk"@ {
        Some(StatId::Disk)
    } else {
        None
    }
}

/// How a stat-list entry reads: `title.<name>`, `title`, a stat key, or an
/// error message.
pub open spec fn parse_spec(s: Seq<char>) -> Result<StatEntry, Seq<char>> {
    if starts_with(s, "title."@) {
        if s.len() == 6 {
            Err("title name cannot be empty"@)
        } else {
            Ok(StatEntry::NamedTitle(s.skip(6)))
        }
    } else if s == "title"@ {
        Ok(StatEntry::LegacyTitle)
    } else {
        match stat_of_key(s) {
            Some(id) => Ok(StatEntry::Stat(id)),
            None => Err("unknown stat: "@ + s),
        }
    }
}

pub open spec fn result_view(r: Result<StatIdOrTitle, String>) -> Result<StatEntry, Seq<char>> {
    match r {
        Ok(e) => Ok(e@),
        Err(m) => Err(m@),
    }
}

fn stat_from_key(s: &str) -> (r: Option<StatId>)
    ensures
        r == stat_of_key(s@),
{
    if str_eq(s, "installed") {
        Some(StatId::Installed)
    } else if str_eq(s, "upgradable") {
        Some(StatId::Upgradable)
    } else if str_eq(s, "last_update") {
        Some(StatId::LastUpdate)
    } else if str_eq(s, "download_size") {
        Some(StatId::DownloadSize)
    } else if str_eq(s, "installed_size") {
        Some(StatId::InstalledSize)
    } else if str_eq(s, "net_upgrade_size") {
        Some(StatId::NetUpgradeSize)
    } else if str_eq(s, "orphaned_packages") {
        Some(StatId::OrphanedPackages)
    } else if str_eq(s, "cache_size") {
        Some(StatId::CacheSize)
    } else if str_eq(s, "mirror_url") {
        Some(StatId::MirrorUrl)
    } else if str_eq(s, "mirror_health") {
        Some(StatId::MirrorHealth)
    } else if str_eq(s, "disk") {
        Some(StatId::Disk)
    } else {
        None
    }
}

impl StatId {
    /// Reads one entry of the configured stat list.
    pub fn parse(s: &str) -> (r: Result<StatIdOrTitle, String>)
        ensures
            result_view(r) == parse_spec(s@),
    {
        proof {
            reveal_strlit("title.");
        }
        if starts_with_str(s, "title.") {
            let n = s.unicode_len();
            if n == 6 {
                return Err("title name cannot be empty".to_owned());
            }
            let name = s.substring_char(6, n).to_owned();
            proof {
                assert(name@ =~= s@.skip(6));
            }
            return Ok(StatIdOrTitle::NamedTitle(name));
        }
        if str_eq(s, "title") {
            return Ok(StatIdOrTitle::LegacyTitle);
        }
        match stat_from_key(s) {
            Some(id) => Ok(StatIdOrTitle::Stat(id)),
            None => {
                let mut m = "unknown stat: ".to_owned();
                m.append(s);
                Err(m)
            },
        }
    }

    pub fn config_key(&self) -> (r: &'static str)
        ensures
            r@ == key_spec(*self),
    {
        match self {
            StatId::Title => "title",
            StatId::Installed => "installed",
            StatId::Upgradable => "upgradable",
            StatId::LastUpdate => "last_update",
            StatId::DownloadSize => "download_size",
            StatId::InstalledSize => "installed_size",
            StatId::NetUpgradeSize => "net_upgrade_size",
            StatId::OrphanedPackages => "orphaned_packages",
            StatId::CacheSize => "cache_size",
            StatId::MirrorUrl => "mirror_url",
            StatId::MirrorHealth => "mirror_health",
            StatId::Disk => "disk",
        }
    }

    pub fn label(&self) -> (r: &'static str)
        ensures
            r@ == label_spec(*self),
    {
        match self {
            StatId::Title => "",
            StatId::Installed => "Installed",
            StatId::Upgradable => "Upgradable",
            StatId::LastUpdate => "Last System Update",
            StatId::DownloadSize => "Download Size",
            StatId::InstalledSize => "Installed Size",
            StatId::NetUpgradeSize => "Net Upgrade Size",
            StatId::OrphanedPackages => "Orphaned Packages",
            StatId::CacheSize => "Package Cache",
            StatId::MirrorUrl => "Mirror URL",
            StatId::MirrorHealth => "Mirror Health",
            StatId::Disk => "Disk",
        }
    }
}

/// Some entry of the request is one of the stats in `wanted`.
pub open spec fn requests_any(requested: Seq<StatIdOrTitle>, wanted: Seq<StatId>) -> bool {
    exists|i: int| 0 <= i < requested.len() && entry_in(#[trigger] requested[i], wanted)
}

/// The entry is one of the stats in `wanted`.
pub open spec fn entry_in(e: StatIdOrTitle, wanted: Seq<StatId>) -> bool {
    match e {
        StatIdOrTitle::Stat(id) => wanted.contains(id),
        _ => false,
    }
}

fn in_list(id: StatId, wanted: &[StatId]) -> (r: bool)
    ensures
        r == wanted@.contains(id),
{
    let mut j: usize = 0;
    while j < wanted.len()
        invariant
            j <= wanted@.len(),
            forall|k: int| 0 <= k < j ==> wanted@[k] != id,
        decreases wanted@.len() - j,
    {
        if wanted[j] == id {
            return true;
        }
        j += 1;
    }
    false
}

fn has_any(requested: &[StatIdOrTitle], wanted: &[StatId]) -> (r: bool)
    ensures
        r == requests_any(requested@, wanted@),
{
    let mut i: usize = 0;
    while i < requested.len()
        invariant
            i <= requested@.len(),
            forall|j: int| 0 <= j < i ==> !entry_in(#[trigger] requested@[j], wanted@),
        decreases requested@.len() - i,
    {
        match &requested[i] {
            StatIdOrTitle::Stat(id) => {
                if in_list(*id, wanted) {
                    return true;
                }
            },
            _ => {},
        }
        i += 1;
    }
    false
}

/// The stats that need the simulated upgrade.
pub open spec fn upgrade_stats() -> Seq<StatId> {
    seq![StatId::Upgradable, StatId::DownloadSize, StatId::InstalledSize, StatId::NetUpgradeSize]
}

/// The stats that need the mirror's URL.
pub open spec fn mirror_stats() -> Seq<StatId> {
    seq![StatId::MirrorUrl, StatId::MirrorHealth]
}

pub fn needs_upgrade_stats(requested: &[StatIdOrTitle]) -> (r: bool)
    ensures
        r == requests_any(requested@, upgrade_stats()),
{
    let w = vec![StatId::Upgradable, StatId::DownloadSize, StatId::InstalledSize, StatId::NetUpgradeSize];
    assert(w@ =~= upgrade_stats());
    has_any(requested, w.as_slice())
}

pub fn needs_orphan_stats(requested: &[StatIdOrTitle]) -> (r: bool)
    ensures
        r == requests_any(requested@, seq![StatId::OrphanedPackages]),
{
    let w = vec![StatId::OrphanedPackages];
    assert(w@ =~= seq![StatId::OrphanedPackages]);
    has_any(requested, w.as_slice())
}

pub fn needs_mirror_health(requested: &[StatIdOrTitle]) -> (r: bool)
    ensures
        r == requests_any(requested@, seq![StatId::MirrorHealth]),
{
    let w = vec![StatId::MirrorHealth];
    assert(w@ =~= seq![StatId::MirrorHealth]);
    has_any(requested, w.as_slice())
}

pub fn needs_mirror_url(requested: &[StatIdOrTitle]) -> (r: bool)
    ensures
        r == requests_any(requested@, mirror_stats()),
{
    let w = vec![StatId::MirrorUrl, StatId::MirrorHealth];
    assert(w@ =~= mirror_stats());
    has_any(requested, w.as_slice())
}

pub fn needs_disk_stat(requested: &[StatIdOrTitle]) -> (r: bool)
    ensures
        r == requests_any(requested@, seq![StatId::Disk]),
{
    let w = vec![StatId::Disk];
    assert(w@ =~= seq![StatId::Disk]);
    has_any(requested, w.as_slice())
}

/// Which data sources a request needs.
#[derive(Clone, Copy, Debug, PartialEq, Eq, Structural)]
pub struct StatsPlan {
    pub upgrade: bool,
    pub orphans: bool,
    pub mirror_url: bool,
    pub mirror_health: bool,
    pub installed: bool,
    pub last_update: bool,
    pub cache_size: bool,
    pub disk: bool,
}

/// The sources to query for a request; the mirror's health is only checked
/// when its URL is looked up.
pub fn plan_stats(requested: &[StatIdOrTitle]) -> (r: StatsPlan)
    ensures
        r.upgrade == requests_any(requested@, upgrade_stats()),
        r.orphans == requests_any(requested@, seq![StatId::OrphanedPackages]),
        r.mirror_url == requests_any(requested@, mirror_stats()),
        r.mirror_health == (r.mirror_url && requests_any(requested@, seq![StatId::MirrorHealth])),
        r.installed == requests_any(requested@, seq![StatId::Installed]),
        r.last_update == requests_any(requested@, seq![StatId::LastUpdate]),
        r.cache_size == requests_any(requested@, seq![StatId::CacheSize]),
        r.disk == requests_any(requested@, seq![StatId::Disk]),
{
    let mirror_url = needs_mirror_url(requested);
    let mirror_health = mirror_url && needs_mirror_health(requested);
    let w1 = vec![StatId::Installed];
    let w2 = vec![StatId::LastUpdate];
    let w3 = vec![StatId::CacheSize];
    assert(w1@ =~= seq![StatId::Installed]);
    assert(w2@ =~= seq![StatId::LastUpdate]);
    assert(w3@ =~= seq![StatId::CacheSize]);
    StatsPlan {
        upgrade: needs_upgrade_stats(requested),
        orphans: needs_orphan_stats(requested),
        mirror_url,
        mirror_health,
        installed: has_any(requested, w1.as_slice()),
        last_update: has_any(requested, w2.as_slice()),
        cache_size: has_any(requested, w3.as_slice()),
        disk: needs_disk_stat(requested),
    }
}

} // verus!
