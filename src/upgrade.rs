//! Upgrade and orphan size arithmetic over the per-package sizes that the
//! package-database toolkit reports, and the command lines that are run.
use vstd::prelude::*;

verus! {

/// Bytes in a mebibyte.
pub const BYTES_PER_MIB: i128 = 1048576;

/// Sizes of one package that a full upgrade would install.
#[derive(Clone, Copy, Debug, PartialEq, Eq, Structural)]
pub struct PackageSizes {
    /// Bytes to download.
    pub download: i64,
    /// Installed size of the new version.
    pub installed: i64,
    /// Installed size of the local package it replaces, for an upgrade.
    pub replaced: Option<i64>,
}

/// Totals of a simulated full upgrade, in bytes.
#[derive(Clone, Copy, Debug, PartialEq, Eq, Structural)]
pub struct UpgradeTotals {
    pub download: i128,
    pub installed: i128,
    pub net: i128,
    pub count: u32,
}

pub open spec fn sum_download(p: Seq<PackageSizes>) -> int
    decreases p.len(),
{
    if p.len() == 0 {
        0
    } else {
        sum_download(p.drop_last()) + p.last().download
    }
}

pub open spec fn sum_installed(p: Seq<PackageSizes>) -> int
    decreases p.len(),
{
    if p.len() == 0 {
        0
    } else {
        sum_installed(p.drop_last()) + p.last().installed
    }
}

/// What one package adds to the net size: its new size, less the old one
/// for an upgrade.
pub open spec fn net_change(p: PackageSizes) -> int {
    match p.replaced {
        Some(old) => p.installed - old,
        None => p.installed as int,
    }
}

pub open spec fn sum_net(p: Seq<PackageSizes>) -> int
    decreases p.len(),
{
    if p.len() == 0 {
        0
    } else {
        sum_net(p.drop_last()) + net_change(p.last())
    }
}

pub open spec fn sum_sizes(s: Seq<i64>) -> int
    decreases s.len(),
{
    if s.len() == 0 {
        0
    } else {
        sum_sizes(s.drop_last()) + s.last()
    }
}

/// Sums the sizes of a simulated upgrade: downloads, new installed sizes,
/// and the net change (new sizes, less the sizes of the packages replaced
/// and of the packages removed). Package counts are kept in a `u32`, so
/// neither list may be longer than that counts.
pub fn upgrade_totals(adds: &[PackageSizes], removes: &[i64]) -> (r: UpgradeTotals)
    requires
        adds@.len() <= 0xffff_ffff,
        removes@.len() <= 0xffff_ffff,
    ensures
        r.download == sum_download(adds@),
        r.installed == sum_installed(adds@),
        r.net == sum_net(adds@) - sum_sizes(removes@),
        r.count == adds@.len(),
{
    let mut download: i128 = 0;
    let mut installed: i128 = 0;
    let mut net: i128 = 0;
    let mut i: usize = 0;
    while i < adds.len()
        invariant
            i <= adds@.len() <= 0xffff_ffff,
            download == sum_download(adds@.take(i as int)),
            installed == sum_installed(adds@.take(i as int)),
            net == sum_net(adds@.take(i as int)),
            -(i * 0x8000_0000_0000_0000) <= download <= i * 0x8000_0000_0000_0000,
            -(i * 0x8000_0000_0000_0000) <= installed <= i * 0x8000_0000_0000_0000,
            -(i * 0x1_0000_0000_0000_0000) <= net <= i * 0x1_0000_0000_0000_0000,
        decreases adds@.len() - i,
    {
        let p = adds[i];
        proof {
            assert(adds@.take(i + 1).drop_last() =~= adds@.take(i as int));
            assert(adds@.take(i + 1).last() == p);
        }
        download = download + p.download as i128;
        installed = installed + p.installed as i128;
        net = match p.replaced {
            Some(old) => net + (p.installed as i128 - old as i128),
            None => net + p.installed as i128,
        };
        i += 1;
    }
    proof {
        assert(adds@.take(adds@.len() as int) =~= adds@);
    }
    let mut j: usize = 0;
    let ghost added = net;
    while j < removes.len()
        invariant
            j <= removes@.len() <= 0xffff_ffff,
            added == sum_net(adds@),
            -0x1_0000_0000_0000_0000_0000_0000 <= added <= 0x1_0000_0000_0000_0000_0000_0000,
            net == added - sum_sizes(removes@.take(j as int)),
            -(j * 0x8000_0000_0000_0000) <= net - added <= j * 0x8000_0000_0000_0000,
        decreases removes@.len() - j,
    {
        let s = removes[j];
        proof {
            assert(removes@.take(j + 1).drop_last() =~= removes@.take(j as int));
            assert(removes@.take(j + 1).last() == s);
        }
        net = net - s as i128;
        j += 1;
    }
    proof {
        assert(removes@.take(removes@.len() as int) =~= removes@);
    }
    UpgradeTotals { download, installed, net, count: i as u32 }
}

/// The net size with values that would display as a signed zero set to
/// zero: `net / 2^20` lies strictly between -0.01 and 0.01 mebibytes exactly
/// when `-2^20 < 100 * net < 2^20`.
pub fn normalize_net(net: i128) -> (r: i128)
    ensures
        (-BYTES_PER_MIB < 100 * net < BYTES_PER_MIB) ==> r == 0,
        !(-BYTES_PER_MIB < 100 * net < BYTES_PER_MIB) ==> r == net,
{
    if -10486 < net && net < 10486 && -BYTES_PER_MIB < 100 * net && 100 * net < BYTES_PER_MIB {
        0
    } else {
        net
    }
}

/// What the local database says of one installed package.
#[derive(Clone, Copy, Debug, PartialEq, Eq, Structural)]
pub struct LocalPackage {
    /// Installed as a dependency, not explicitly.
    pub as_dependency: bool,
    /// Number of packages that require it.
    pub required_by: usize,
    /// Number of packages that list it as optional.
    pub optional_for: usize,
    /// Installed size in bytes.
    pub size: i64,
}

/// An orphan: installed as a dependency, and nothing requires it or wants
/// it optionally.
pub open spec fn is_orphan(p: LocalPackage) -> bool {
    p.as_dependency && p.required_by == 0 && p.optional_for == 0
}

pub open spec fn orphan_count(p: Seq<LocalPackage>) -> nat
    decreases p.len(),
{
    if p.len() == 0 {
        0
    } else {
        orphan_count(p.drop_last()) + if is_orphan(p.last()) {
            1nat
        } else {
            0nat
        }
    }
}

pub open spec fn orphan_size(p: Seq<LocalPackage>) -> int
    decreases p.len(),
{
    if p.len() == 0 {
        0
    } else {
        orphan_size(p.drop_last()) + if is_orphan(p.last()) {
            p.last().size as int
        } else {
            0
        }
    }
}

/// Counts the orphaned packages (in a `u32`, which bounds the list's
/// length) and sums their installed sizes.
pub fn orphan_totals(pkgs: &[LocalPackage]) -> (r: (u32, i128))
    requires
        pkgs@.len() <= 0xffff_ffff,
    ensures
        r.0 == orphan_count(pkgs@),
        r.1 == orphan_size(pkgs@),
{
    let mut count: u32 = 0;
    let mut size: i128 = 0;
    let mut i: usize = 0;
    while i < pkgs.len()
        invariant
            i <= pkgs@.len() <= 0xffff_ffff,
            count == orphan_count(pkgs@.take(i as int)),
            count <= i,
            size == orphan_size(pkgs@.take(i as int)),
            -(i * 0x8000_0000_0000_0000) <= size <= i * 0x8000_0000_0000_0000,
        decreases pkgs@.len() - i,
    {
        let p = pkgs[i];
        proof {
            assert(pkgs@.take(i + 1).drop_last() =~= pkgs@.take(i as int));
            assert(pkgs@.take(i + 1).last() == p);
        }
        if p.as_dependency && p.required_by == 0 && p.optional_for == 0 {
            count = count + 1;
            size = size + p.size as i128;
        }
        i += 1;
    }
    proof {
        assert(pkgs@.take(pkgs@.len() as int) =~= pkgs@);
    }
    (count, size)
}

/// The headless sync of the cache: as root it runs the package manager
/// directly; otherwise under fakeroot with the filesystem sandbox off.
pub open spec fn sync_command_spec(is_root: bool, dbpath: Seq<char>) -> Seq<char> {
    if is_root {
        "pacman -Sy --dbpath "@ + dbpath + " --logfile /dev/null"@
    } else {
        "fakeroot -- pacman -Sy --disable-sandbox-filesystem --dbpath "@ + dbpath
            + " --logfile /dev/null"@
    }
}

pub fn sync_command(is_root: bool, dbpath: &str) -> (r: String)
    ensures
        r@ == sync_command_spec(is_root, dbpath@),
{
    let mut s = if is_root {
        "pacman -Sy --dbpath ".to_owned()
    } else {
        "fakeroot -- pacman -Sy --disable-sandbox-filesystem --dbpath ".to_owned()
    };
    s.append(dbpath);
    s.append(" --logfile /dev/null");
    s
}

/// The words joined with single spaces.
pub open spec fn join_words(w: Seq<Seq<char>>) -> Seq<char>
    decreases w.len(),
{
    if w.len() == 0 {
        Seq::empty()
    } else if w.len() == 1 {
        w[0]
    } else {
        join_words(w.drop_last()) + seq![' '] + w.last()
    }
}

/// `pacman` followed by the arguments, space separated.
pub fn pacman_command(args: &[&str]) -> (r: String)
    ensures
        r@ == "pacman "@ + join_words(args@.map_values(|a: &str| a@)),
{
    let mut s = "pacman ".to_owned();
    let ghost w = args@.map_values(|a: &str| a@);
    let ghost base = s@;
    let mut i: usize = 0;
    while i < args.len()
        invariant
            i <= args@.len(),
            w == args@.map_values(|a: &str| a@),
            s@ == base + join_words(w.take(i as int)),
        decreases args@.len() - i,
    {
        proof {
            assert(w.take(i + 1).drop_last() =~= w.take(i as int));
            assert(w.take(i + 1).last() == args@[i as int]@);
        }
        if i > 0 {
            s.push(' ');
        }
        s.append(args[i]);
        proof {
            if i == 0 {
                assert(w.take(1) =~= seq![args@[0]@]);
            }
            assert(s@ =~= base + join_words(w.take(i + 1)));
        }
        i += 1;
    }
    proof {
        assert(w.take(args@.len() as int) =~= w);
    }
    s
}

} // verus!
