//! Small shared pieces: human-readable durations, home-directory expansion
//! and disk usage arithmetic.
use vstd::prelude::*;
use crate::number::{int_text, push_int};
use crate::text::{starts_with, starts_with_str, str_eq};

verus! {

pub open spec fn plural(n: int) -> Seq<char> {
    if n != 1 {
        "s"@
    } else {
        ""@
    }
}

/// `<n> <unit>` with an `s` unless `n` is one.
pub open spec fn count_text(n: int, unit: Seq<char>) -> Seq<char> {
    int_text(n) + " "@ + unit + plural(n)
}

/// Seconds as the largest fitting unit; from a day on, days and hours.
pub open spec fn duration_text(seconds: int) -> Seq<char> {
    if seconds < 60 {
        count_text(seconds, "second"@)
    } else if seconds < 3600 {
        count_text(seconds / 60, "minute"@)
    } else if seconds < 86400 {
        count_text(seconds / 3600, "hour"@)
    } else {
        count_text(seconds / 86400, "day"@) + " "@ + count_text((seconds % 86400) / 3600, "hour"@)
    }
}

fn push_count(out: &mut String, n: i64, unit: &str)
    ensures
        final(out)@ == old(out)@ + count_text(n as int, unit@),
{
    push_int(out, n);
    out.append(" ");
    out.append(unit);
    if n != 1 {
        out.append("s");
    }
    proof {
        reveal_strlit("");
    }
    assert(final(out)@ =~= old(out)@ + count_text(n as int, unit@));
}

/// Converts seconds to a human-readable duration.
pub fn normalize_duration(seconds: i64) -> (r: String)
    ensures
        r@ == duration_text(seconds as int),
{
    let mut s = String::new();
    if seconds < 60 {
        push_count(&mut s, seconds, "second");
    } else if seconds < 3600 {
        push_count(&mut s, seconds / 60, "minute");
    } else if seconds < 86400 {
        push_count(&mut s, seconds / 3600, "hour");
    } else {
        push_count(&mut s, seconds / 86400, "day");
        s.append(" ");
        push_count(&mut s, (seconds % 86400) / 3600, "hour");
    }
    assert(s@ =~= duration_text(seconds as int));
    s
}

/// `~` or a path under `~/` with the home directory in place of the `~`.
pub open spec fn expand_tilde_spec(path: Seq<char>, home: Option<Seq<char>>) -> Seq<char> {
    match home {
        Some(h) => if path == "~"@ || starts_with(path, "~/"@) {
            h + path.skip(1)
        } else {
            path
        },
        None => path,
    }
}

pub fn expand_tilde_with(path: &str, home: Option<&str>) -> (r: String)
    ensures
        r@ == expand_tilde_spec(path@, match home {
            Some(h) => Some(h@),
            None => None,
        }),
{
    match home {
        Some(h) => {
            if str_eq(path, "~") || starts_with_str(path, "~/") {
                proof {
                    reveal_strlit("~");
                    reveal_strlit("~/");
                }
                let mut s = h.to_owned();
                s.append(path.substring_char(1, path.unicode_len()));
                assert(s@ =~= h@ + path@.skip(1));
                s
            } else {
                path.to_owned()
            }
        },
        None => path.to_owned(),
    }
}

/// Relies on `dirs::home_dir`: the current user's home directory, if known
/// (it depends on the environment, so nothing is promised of it).
#[verifier::external_body]
fn home_dir() -> (r: Option<String>) {
    match dirs::home_dir() {
        Some(p) => Some(p.to_string_lossy().into_owned()),
        None => None,
    }
}

/// Expands a leading `~` or `~/` to the home directory, when one is known;
/// any other path comes back unchanged.
pub fn expand_tilde(path: &str) -> (r: String)
    ensures
        !(path@ == "~"@ || starts_with(path@, "~/"@)) ==> r@ == path@,
{
    match home_dir() {
        Some(h) => expand_tilde_with(path, Some(h.as_str())),
        None => expand_tilde_with(path, None),
    }
}

/// A path starting with `~` with that `~` replaced by `home`.
pub open spec fn expand_path_spec(path: Seq<char>, home: Seq<char>) -> Seq<char> {
    if path.len() > 0 && path[0] == '~' {
        home + path.skip(1)
    } else {
        path
    }
}

/// Replaces a leading `~` with the given home directory.
pub fn expand_path(path: &str, home: &str) -> (r: String)
    ensures
        r@ == expand_path_spec(path@, home@),
{
    let n = path.unicode_len();
    if n > 0 && path.get_char(0) == '~' {
        let mut s = home.to_owned();
        s.append(path.substring_char(1, n));
        assert(s@ =~= home@ + path@.skip(1));
        s
    } else {
        path.to_owned()
    }
}

/// Used and total bytes of a filesystem from its block counts; `None` when
/// the counts are inconsistent or the products do not fit in 64 bits.
pub fn disk_usage(blocks: u64, free: u64, fragment_size: u64) -> (r: Option<(u64, u64)>)
    ensures
        r matches Some(p) ==> p.0 == (blocks - free) * fragment_size && p.1 == blocks
            * fragment_size,
        r is None <==> (free > blocks || blocks * fragment_size > u64::MAX),
{
    if free > blocks {
        return None;
    }
    assert(blocks * fragment_size <= u64::MAX * u64::MAX) by (nonlinear_arith)
        requires
            blocks <= u64::MAX,
            fragment_size <= u64::MAX,
    ;
    let total = blocks as u128 * fragment_size as u128;
    if total > u64::MAX as u128 {
        return None;
    }
    assert((blocks - free) * fragment_size <= blocks * fragment_size) by (nonlinear_arith)
        requires
            free <= blocks,
    ;
    let used = (blocks - free) as u128 * fragment_size as u128;
    Some((used as u64, total as u64))
}

} // verus!
