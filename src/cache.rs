//! The persistent database cache: its layout, the freshness decision over
//! the ages of the required database files, and which system databases to
//! copy in.
use vstd::prelude::*;
use crate::text::{ends_with, ends_with_str};

verus! {

/// `name` appended to `base` as a path component, as `Path::join` does for
/// a relative name.
pub open spec fn join_path(base: Seq<char>, name: Seq<char>) -> Seq<char> {
    if base.len() == 0 {
        name
    } else if base.last() == '/' {
        base + name
    } else {
        base + seq!['/'] + name
    }
}

pub fn join(base: &str, name: &str) -> (r: String)
    ensures
        r@ == join_path(base@, name@),
{
    let n = base.unicode_len();
    if n == 0 {
        return name.to_owned();
    }
    let mut s = base.to_owned();
    if base.get_char(n - 1) != '/' {
        s.push('/');
    }
    s.append(name);
    s
}

/// The directory the system's own sync databases live in.
pub const SYSTEM_SYNC_DIR: &'static str = "/var/lib/pacman/sync";

/// The system's local package database, which the cache links to.
pub const SYSTEM_LOCAL_DB: &'static str = "/var/lib/pacman/local";

/// A modification time: seconds and nanoseconds since the epoch.
#[derive(Clone, Copy, Debug, PartialEq, Eq, Structural)]
pub struct FileTime {
    pub secs: i64,
    pub nanos: u32,
}

impl FileTime {
    pub open spec fn wf(&self) -> bool {
        self.nanos < 1_000_000_000
    }

    /// The time in nanoseconds.
    pub open spec fn ns(&self) -> int {
        self.secs * 1_000_000_000 + self.nanos
    }
}

/// What could be learned of a file.
#[derive(Clone, Copy, Debug, PartialEq, Eq, Structural)]
pub enum FileInfo {
    /// The file is not there (or its metadata cannot be read).
    Missing,
    /// The file is there but its modification time cannot be read.
    NoTime,
    /// The file is there, last modified at this time.
    At(FileTime),
}

/// Whole seconds from `mtime` to `now`; `None` when `mtime` is later.
pub open spec fn age_spec(now: FileTime, mtime: FileTime) -> Option<int> {
    if mtime.ns() > now.ns() {
        None
    } else {
        Some((now.ns() - mtime.ns()) / 1_000_000_000)
    }
}

/// The age of a file, as `SystemTime::elapsed` reports it in whole seconds.
pub fn file_age(now: FileTime, info: FileInfo) -> (r: Option<u64>)
    requires
        now.wf(),
        info matches FileInfo::At(t) ==> t.wf(),
    ensures
        info matches FileInfo::At(t) ==> (r matches Some(a) ==> age_spec(now, t) == Some(a as int))
            && (r is None <==> age_spec(now, t) is None),
        !(info is At) ==> r is None,
{
    match info {
        FileInfo::At(t) => {
            let now_ns: i128 = now.secs as i128 * 1_000_000_000 + now.nanos as i128;
            let t_ns: i128 = t.secs as i128 * 1_000_000_000 + t.nanos as i128;
            if t_ns > now_ns {
                None
            } else {
                let d = (now_ns - t_ns) / 1_000_000_000;
                assert(d <= 0x1_0000_0000_0000_0000) by (nonlinear_arith)
                    requires
                        d == (now_ns - t_ns) / 1_000_000_000,
                        now_ns - t_ns <= 0x1_0000_0000_0000_0000 * 1_000_000_000,
                        now_ns - t_ns >= 0,
                ;
                Some(d as u64)
            }
        },
        _ => None,
    }
}

/// Fresh: a time-to-live is set and every required database is present
/// with an age of at most that many minutes.
pub open spec fn fresh_spec(ttl_minutes: u32, ages: Seq<Option<u64>>) -> bool {
    ttl_minutes > 0 && forall|i: int|
        0 <= i < ages.len() ==> (#[trigger] ages[i] matches Some(a) && a <= ttl_minutes * 60)
}

/// Copy a system database into the cache when the cached copy is missing,
/// or strictly older (a missing time counting as older than any time).
pub open spec fn should_copy_spec(src: FileInfo, dest: FileInfo) -> bool {
    match (src, dest) {
        (FileInfo::Missing, _) => false,
        (_, FileInfo::Missing) => true,
        (FileInfo::NoTime, _) => false,
        (FileInfo::At(_), FileInfo::NoTime) => true,
        (FileInfo::At(s), FileInfo::At(d)) => s.ns() > d.ns(),
    }
}

pub fn should_copy(src: FileInfo, dest: FileInfo) -> (r: bool)
    ensures
        r == should_copy_spec(src, dest),
{
    match (src, dest) {
        (FileInfo::Missing, _) => false,
        (_, FileInfo::Missing) => true,
        (FileInfo::NoTime, _) => false,
        (FileInfo::At(_), FileInfo::NoTime) => true,
        (FileInfo::At(s), FileInfo::At(d)) => {
            (s.secs as i128) * 1_000_000_000 + s.nanos as i128 > (d.secs as i128) * 1_000_000_000
                + d.nanos as i128
        },
    }
}

/// A file name with the extension `db`.
pub open spec fn is_db_name(name: Seq<char>) -> bool {
    name.len() > 3 && ends_with(name, ".db"@)
}

pub fn is_db_file(name: &str) -> (r: bool)
    ensures
        r == is_db_name(name@),
{
    name.unicode_len() > 3 && ends_with_str(name, ".db")
}

/// The cache directory, holding `sync/` with the three databases and a
/// `local` link to the system's local database.
pub struct DbCache {
    pub path: String,
}

impl DbCache {
    pub fn at(path: String) -> (r: DbCache)
        ensures
            r.path@ == path@,
    {
        DbCache { path }
    }

    /// The root to hand the package manager as its database path.
    pub fn dbpath(&self) -> (r: &str)
        ensures
            r@ == self.path@,
    {
        self.path.as_str()
    }

    pub fn sync_dir(&self) -> (r: String)
        ensures
            r@ == join_path(self.path@, "sync"@),
    {
        join(self.path.as_str(), "sync")
    }

    pub fn local_link(&self) -> (r: String)
        ensures
            r@ == join_path(self.path@, "local"@),
    {
        join(self.path.as_str(), "local")
    }

    /// Where a database of the given file name is kept in the cache.
    pub fn db_file(&self, name: &str) -> (r: String)
        ensures
            r@ == join_path(join_path(self.path@, "sync"@), name@),
    {
        let dir = self.sync_dir();
        join(dir.as_str(), name)
    }

    /// The cached files that must all be fresh: core, extra and multilib.
    pub fn required_db_files(&self) -> (r: Vec<String>)
        ensures
            r@.len() == 3,
            r@[0]@ == join_path(join_path(self.path@, "sync"@), "core.db"@),
            r@[1]@ == join_path(join_path(self.path@, "sync"@), "extra.db"@),
            r@[2]@ == join_path(join_path(self.path@, "sync"@), "multilib.db"@),
    {
        let mut v: Vec<String> = Vec::new();
        v.push(self.db_file("core.db"));
        v.push(self.db_file("extra.db"));
        v.push(self.db_file("multilib.db"));
        v
    }

    /// Whether the cached databases are fresh, given the age in seconds of
    /// each required file (`None`: missing, unreadable, or dated in the
    /// future). A time-to-live of zero is never fresh.
    pub fn is_fresh(&self, ttl_minutes: u32, ages: &[Option<u64>]) -> (r: bool)
        ensures
            r == fresh_spec(ttl_minutes, ages@),
            ttl_minutes == 0 ==> !r,
            (exists|i: int| 0 <= i < ages@.len() && #[trigger] ages@[i] is None) ==> !r,
            (exists|i: int|
                0 <= i < ages@.len() && (#[trigger] ages@[i] matches Some(a) && a > ttl_minutes
                    * 60)) ==> !r,
    {
        if ttl_minutes == 0 {
            return false;
        }
        let limit: u64 = ttl_minutes as u64 * 60;
        let mut i: usize = 0;
        while i < ages.len()
            invariant
                limit == ttl_minutes * 60,
                ttl_minutes > 0,
                i <= ages@.len(),
                forall|j: int|
                    0 <= j < i ==> (#[trigger] ages@[j] matches Some(a) && a <= ttl_minutes * 60),
            decreases ages@.len() - i,
        {
            match ages[i] {
                Some(a) => {
                    if a > limit {
                        return false;
                    }
                },
                None => {
                    return false;
                },
            }
            i += 1;
        }
        true
    }
}

} // verus!
