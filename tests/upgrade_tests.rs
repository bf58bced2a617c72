use pacfetch::upgrade::{normalize_net, orphan_totals, pacman_command, sync_command, upgrade_totals, LocalPackage, PackageSizes};

#[test]
fn net_near_zero_normalizes() {
    assert_eq!(normalize_net(0), 0);
    assert_eq!(normalize_net(10485), 0);
    assert_eq!(normalize_net(-10485), 0);
    assert_eq!(normalize_net(10486), 10486);
    assert_eq!(normalize_net(-10486), -10486);
    assert_eq!(normalize_net(5_000_000), 5_000_000);
    // the same bounds as the displayed value in mebibytes
    for b in [10485i128, 10486, -10485, -10486] {
        let mib = b as f64 / 1048576.0;
        assert_eq!(normalize_net(b) == 0, mib > -0.01 && mib < 0.01);
    }
}

#[test]
fn totals_of_upgrade() {
    let adds = [
        PackageSizes { download: 100, installed: 1000, replaced: Some(800) },
        PackageSizes { download: 50, installed: 300, replaced: None },
    ];
    let r = upgrade_totals(&adds, &[120]);
    assert_eq!(r.download, 150);
    assert_eq!(r.installed, 1300);
    assert_eq!(r.net, 200 + 300 - 120);
    assert_eq!(r.count, 2);
    let e = upgrade_totals(&[], &[]);
    assert_eq!((e.download, e.installed, e.net, e.count), (0, 0, 0, 0));
    let big = [PackageSizes { download: i64::MAX, installed: i64::MAX, replaced: Some(i64::MIN) }; 2];
    let b = upgrade_totals(&big, &[i64::MIN]);
    assert_eq!(b.download, 2 * i64::MAX as i128);
    assert_eq!(b.net, 2 * (i64::MAX as i128 - i64::MIN as i128) - i64::MIN as i128);
}

#[test]
fn orphans_counted() {
    let p = |dep: bool, req: usize, opt: usize, size: i64| LocalPackage { as_dependency: dep, required_by: req, optional_for: opt, size };
    let pkgs = [p(true, 0, 0, 10), p(true, 1, 0, 20), p(false, 0, 0, 40), p(true, 0, 2, 80), p(true, 0, 0, 5)];
    assert_eq!(orphan_totals(&pkgs), (2, 15));
    assert_eq!(orphan_totals(&[]), (0, 0));
}

#[test]
fn commands() {
    assert_eq!(sync_command(true, "/c"), "pacman -Sy --dbpath /c --logfile /dev/null");
    assert_eq!(
        sync_command(false, "/c"),
        "fakeroot -- pacman -Sy --disable-sandbox-filesystem --dbpath /c --logfile /dev/null"
    );
    assert_eq!(pacman_command(&["-Su"]), "pacman -Su");
    assert_eq!(pacman_command(&["-S", "foo", "bar"]), "pacman -S foo bar");
    assert_eq!(pacman_command(&[]), "pacman ");
}
