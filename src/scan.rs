//! Reading what other programs wrote: the package manager's log, its mirror
//! list, its version banner, and a mirror's last-sync marker.
use vstd::prelude::*;
use crate::number::{parse_i64, parse_i64_spec};
use crate::text::{
    before_first, contains, contains_str, first_index, index_of, split_before, starts_with,
    starts_with_str, trim, trim_str,
};

verus! {

/// Index of the first `\n` at or after `i`, or the length.
pub open spec fn line_end(s: Seq<char>, i: int) -> int
    decreases s.len() - i,
{
    if i >= s.len() {
        s.len() as int
    } else if s[i] == '\n' {
        i
    } else {
        line_end(s, i + 1)
    }
}

/// A line without the `\r` of a `\r\n` ending.
pub open spec fn strip_cr(l: Seq<char>) -> Seq<char> {
    if l.len() > 0 && l.last() == '\r' {
        l.drop_last()
    } else {
        l
    }
}

/// The lines of `s` from index `i`, as `str::lines` splits them.
pub open spec fn lines_from(s: Seq<char>, i: int) -> Seq<Seq<char>>
    decreases s.len() + 1 - i,
{
    if i < 0 || i >= s.len() || line_end(s, i) < i || line_end(s, i) > s.len() {
        Seq::empty()
    } else {
        let e = line_end(s, i);
        seq![strip_cr(s.subrange(i, e))] + lines_from(s, e + 1)
    }
}

pub open spec fn lines(s: Seq<char>) -> Seq<Seq<char>> {
    lines_from(s, 0)
}

proof fn lemma_line_end_bounds(s: Seq<char>, i: int)
    requires
        0 <= i <= s.len(),
    ensures
        i <= line_end(s, i) <= s.len(),
        line_end(s, i) < s.len() ==> s[line_end(s, i)] == '\n',
    decreases s.len() - i,
{
    if i < s.len() && s[i] != '\n' {
        lemma_line_end_bounds(s, i + 1);
    }
}

/// The end of the line that starts at `i`.
pub(crate) fn find_line_end(s: &str, i: usize) -> (r: usize)
    requires
        i <= s@.len(),
    ensures
        r == line_end(s@, i as int),
        i <= r <= s@.len(),
{
    let n = s.unicode_len();
    let mut j: usize = i;
    while j < n && s.get_char(j) != '\n'
        invariant
            n == s@.len(),
            i <= j <= n,
            line_end(s@, i as int) == line_end(s@, j as int),
        decreases n - j,
    {
        j += 1;
    }
    proof {
        lemma_line_end_bounds(s@, i as int);
    }
    j
}

/// The line from `i` to `e`, less a final `\r`.
pub(crate) fn line_at(s: &str, i: usize, e: usize) -> (r: String)
    requires
        i <= e <= s@.len(),
    ensures
        r@ == strip_cr(s@.subrange(i as int, e as int)),
{
    if e > i && s.get_char(e - 1) == '\r' {
        s.substring_char(i, e - 1).to_owned()
    } else {
        s.substring_char(i, e).to_owned()
    }
}

/// The number of lines, as `str::lines().count()` gives it.
pub fn count_lines(s: &str) -> (r: usize)
    ensures
        r == lines(s@).len(),
{
    let n = s.unicode_len();
    let mut i: usize = 0;
    let mut count: usize = 0;
    while i < n
        invariant
            n == s@.len(),
            i <= n,
            count <= i,
            lines(s@).len() == count + lines_from(s@, i as int).len(),
        decreases n - i,
    {
        let e = find_line_end(s, i);
        proof {
            assert(lines_from(s@, i as int).len() == 1 + lines_from(s@, e + 1).len());
        }
        count += 1;
        i = if e < n {
            e + 1
        } else {
            n
        };
    }
    count
}

/// The mirror list's first `Server = ` entry, cut before `/$repo`.
pub open spec fn server_url(ls: Seq<Seq<char>>) -> Option<Seq<char>>
    decreases ls.len(),
{
    if ls.len() == 0 {
        None
    } else if starts_with(trim(ls[0]), "Server = "@) {
        Some(before_first(trim(ls[0]).skip(9), "/$repo"@))
    } else {
        server_url(ls.drop_first())
    }
}

/// The base URL of the first mirror in a mirror list.
pub fn mirror_url_from_list(list: &str) -> (r: Option<String>)
    ensures
        r matches Some(u) ==> server_url(lines(list@)) == Some(u@),
        r is None ==> server_url(lines(list@)) is None,
{
    let n = list.unicode_len();
    let mut i: usize = 0;
    while i < n
        invariant
            n == list@.len(),
            i <= n,
            server_url(lines(list@)) == server_url(lines_from(list@, i as int)),
        decreases n - i,
    {
        let e = find_line_end(list, i);
        let line = line_at(list, i, e);
        let t = trim_str(line.as_str());
        proof {
            let ls = lines_from(list@, i as int);
            assert(ls[0] == line@);
            assert(ls.drop_first() =~= lines_from(list@, e + 1));
        }
        proof {
            reveal_strlit("Server = ");
        }
        if starts_with_str(t.as_str(), "Server = ") {
            let url = t.as_str().substring_char(9, t.as_str().unicode_len());
            proof {
                assert(url@ =~= t@.skip(9));
            }
            return Some(split_before(url, "/$repo"));
        }
        i = if e < n {
            e + 1
        } else {
            n
        };
    }
    None
}

/// The version banner: the first line that names both versions, from
/// `Pacman v` on, trimmed.
pub open spec fn version_line(ls: Seq<Seq<char>>) -> Option<Seq<char>>
    decreases ls.len(),
{
    if ls.len() == 0 {
        None
    } else if contains(ls[0], "Pacman v"@) && contains(ls[0], "libalpm v"@) {
        Some(trim(ls[0].skip(first_index(ls[0], "Pacman v"@))))
    } else {
        version_line(ls.drop_first())
    }
}

/// The version string from the package manager's `--version` output.
pub fn pacman_version_from(output: &str) -> (r: Option<String>)
    ensures
        r matches Some(v) ==> version_line(lines(output@)) == Some(v@),
        r is None ==> version_line(lines(output@)) is None,
{
    let n = output.unicode_len();
    let mut i: usize = 0;
    while i < n
        invariant
            n == output@.len(),
            i <= n,
            version_line(lines(output@)) == version_line(lines_from(output@, i as int)),
        decreases n - i,
    {
        let e = find_line_end(output, i);
        let line = line_at(output, i, e);
        let l = line.as_str();
        proof {
            let ls = lines_from(output@, i as int);
            assert(ls[0] == l@);
            assert(ls.drop_first() =~= lines_from(output@, e + 1));
        }
        match index_of(l, "Pacman v") {
            Some(k) => {
                if contains_str(l, "libalpm v") {
                    let rest = l.substring_char(k, l.unicode_len());
                    proof {
                        assert(rest@ =~= l@.skip(k as int));
                    }
                    return Some(trim_str(rest));
                }
            },
            None => {},
        }
        i = if e < n {
            e + 1
        } else {
            n
        };
    }
    None
}

/// Index of the first `c` in `s`, or the length.
pub open spec fn char_index(s: Seq<char>, c: char, i: int) -> int
    decreases s.len() - i,
{
    if i >= s.len() {
        s.len() as int
    } else if s[i] == c {
        i
    } else {
        char_index(s, c, i + 1)
    }
}

/// `s` without its leading `[` characters.
pub open spec fn skip_open_brackets(s: Seq<char>) -> Seq<char>
    decreases s.len(),
{
    if s.len() > 0 && s[0] == '[' {
        skip_open_brackets(s.drop_first())
    } else {
        s
    }
}

/// The timestamp of a log line: the text before the first `]`, without
/// the leading `[`.
pub open spec fn stamp_of(t: Seq<char>) -> Seq<char> {
    skip_open_brackets(t.take(char_index(t, ']', 0)))
}

/// Scans log lines for the last full system upgrade that completed: an
/// upgrade start counts once a `transaction completed` line follows it, and
/// the stamp kept is that of the start. `saw` and `start` carry an upgrade
/// start not yet completed; `last` is the stamp found so far.
pub open spec fn scan_log(ls: Seq<Seq<char>>, saw: bool, start: Seq<char>, last: Option<Seq<char>>) -> Option<Seq<char>>
    decreases ls.len(),
{
    if ls.len() == 0 {
        last
    } else {
        let t = trim(ls[0]);
        let starts = contains(t, "starting full system upgrade"@);
        let saw1 = saw || starts;
        let start1 = if starts {
            stamp_of(t)
        } else {
            start
        };
        if saw1 && contains(t, "transaction completed"@) {
            scan_log(ls.drop_first(), false, start1, Some(start1))
        } else {
            scan_log(ls.drop_first(), saw1, start1, last)
        }
    }
}

pub open spec fn last_upgrade_spec(log: Seq<char>) -> Option<Seq<char>> {
    scan_log(lines(log), false, Seq::empty(), None)
}

/// The timestamp of a trimmed log line.
fn line_stamp(t: &str) -> (r: String)
    ensures
        r@ == stamp_of(t@),
{
    let n = t.unicode_len();
    let mut k: usize = 0;
    while k < n && t.get_char(k) != ']'
        invariant
            n == t@.len(),
            k <= n,
            char_index(t@, ']', 0) == char_index(t@, ']', k as int),
        decreases n - k,
    {
        k += 1;
    }
    let mut b: usize = 0;
    proof {
        assert(t@.take(k as int).skip(0) =~= t@.take(k as int));
    }
    while b < k && t.get_char(b) == '['
        invariant
            n == t@.len(),
            b <= k <= n,
            stamp_of(t@) == skip_open_brackets(t@.take(k as int).skip(b as int)),
        decreases k - b,
    {
        proof {
            assert(t@.take(k as int).skip(b as int).drop_first() =~= t@.take(k as int).skip(b + 1));
        }
        b += 1;
    }
    proof {
        assert(t@.subrange(b as int, k as int) =~= t@.take(k as int).skip(b as int));
    }
    t.substring_char(b, k).to_owned()
}

/// The stamp of the last completed full system upgrade in the log.
pub fn last_upgrade_stamp(log: &str) -> (r: Option<String>)
    ensures
        r matches Some(v) ==> last_upgrade_spec(log@) == Some(v@),
        r is None ==> last_upgrade_spec(log@) is None,
{
    let n = log.unicode_len();
    let mut i: usize = 0;
    let mut saw = false;
    let mut start = String::new();
    let mut last: Option<String> = None;
    while i < n
        invariant
            n == log@.len(),
            i <= n,
            last_upgrade_spec(log@) == scan_log(
                lines_from(log@, i as int),
                saw,
                start@,
                match last {
                    Some(v) => Some(v@),
                    None => None,
                },
            ),
        decreases n - i,
    {
        let e = find_line_end(log, i);
        let line = line_at(log, i, e);
        let t = trim_str(line.as_str());
        let ts = t.as_str();
        proof {
            let ls = lines_from(log@, i as int);
            assert(ls[0] == line@);
            assert(ls.drop_first() =~= lines_from(log@, e + 1));
        }
        if contains_str(ts, "starting full system upgrade") {
            saw = true;
            start = line_stamp(ts);
        }
        if saw && contains_str(ts, "transaction completed") {
            last = Some(start.clone());
            saw = false;
        }
        i = if e < n {
            e + 1
        } else {
            n
        };
    }
    last
}

/// A log stamp such as `2025-12-05T15:43:51-0800` in RFC 3339 form: a `:`
/// put into the zone offset, after the 22nd character.
pub open spec fn rfc3339_form(ts: Seq<char>) -> Option<Seq<char>> {
    if ts.len() >= 22 {
        Some(ts.take(22) + seq![':'] + ts.skip(22))
    } else {
        None
    }
}

pub fn to_rfc3339(ts: &str) -> (r: Option<String>)
    ensures
        r matches Some(v) ==> rfc3339_form(ts@) == Some(v@),
        r is None ==> rfc3339_form(ts@) is None,
{
    let n = ts.unicode_len();
    if n < 22 {
        return None;
    }
    let mut s = ts.substring_char(0, 22).to_owned();
    s.push(':');
    s.append(ts.substring_char(22, n));
    proof {
        assert(s@ =~= ts@.take(22) + seq![':'] + ts@.skip(22));
    }
    Some(s)
}

/// The Unix time, in seconds, of an RFC 3339 timestamp (`None` if it is not one).
pub uninterp spec fn rfc3339_seconds(s: Seq<char>) -> Option<i64>;

/// Relies on chrono's `DateTime::parse_from_rfc3339` and `timestamp`: the
/// Unix time of the text, which depends on the text alone.
#[verifier::external_body]
fn parse_rfc3339(s: &str) -> (r: Option<i64>)
    ensures
        r == rfc3339_seconds(s@),
{
    match chrono::DateTime::parse_from_rfc3339(s) {
        Ok(d) => Some(d.timestamp()),
        Err(_) => None,
    }
}

/// Relies on chrono's `Local::now` and `timestamp`: the current Unix time.
#[verifier::external_body]
fn now_seconds() -> (r: i64) {
    chrono::Local::now().timestamp()
}

/// Seconds from `then` to `now`; never negative, and capped at `i64::MAX`.
pub open spec fn elapsed_spec(now: i64, then: i64) -> i64 {
    if now - then < 0 {
        0
    } else if now - then > i64::MAX {
        i64::MAX
    } else {
        (now - then) as i64
    }
}

pub fn elapsed_seconds(now: i64, then: i64) -> (r: i64)
    ensures
        r == elapsed_spec(now, then),
{
    let d: i128 = now as i128 - then as i128;
    if d < 0 {
        0
    } else if d > i64::MAX as i128 {
        i64::MAX
    } else {
        d as i64
    }
}

/// Seconds since the last completed full system upgrade, given the log
/// text and the current Unix time.
pub open spec fn since_update_spec(log: Seq<char>, now: i64) -> Option<i64> {
    match last_upgrade_spec(log) {
        Some(ts) => match rfc3339_form(ts) {
            Some(f) => match rfc3339_seconds(f) {
                Some(t) => Some(elapsed_spec(now, t)),
                None => None,
            },
            None => None,
        },
        None => None,
    }
}

pub fn last_update_seconds(log: &str, now: i64) -> (r: Option<i64>)
    ensures
        r == since_update_spec(log@, now),
{
    let ts = match last_upgrade_stamp(log) {
        Some(ts) => ts,
        None => return None,
    };
    let f = match to_rfc3339(ts.as_str()) {
        Some(f) => f,
        None => return None,
    };
    match parse_rfc3339(f.as_str()) {
        Some(t) => Some(elapsed_seconds(now, t)),
        None => None,
    }
}

/// Seconds since the last completed full system upgrade, measured against
/// the clock: present exactly when the log holds a readable upgrade stamp.
pub fn seconds_since_update(log: &str) -> (r: Option<i64>)
    ensures
        r is Some <==> since_update_spec(log@, 0) is Some,
        r matches Some(v) ==> v >= 0,
{
    let now = now_seconds();
    last_update_seconds(log, now)
}

/// The URL of a mirror's last-sync marker.
pub fn lastsync_url(mirror: &str) -> (r: String)
    ensures
        r@ == mirror@ + "/lastsync"@,
{
    let mut s = mirror.to_owned();
    s.append("/lastsync");
    s
}

/// Fetches of the last-sync marker: one try and one retry.
pub const MIRROR_FETCH_ATTEMPTS: u32 = 2;

/// Age in seconds of a mirror's last sync, from the marker's body (a Unix
/// time, surrounding whitespace allowed) and the current Unix time.
pub open spec fn mirror_age_spec(body: Seq<char>, now: i64) -> Option<i64> {
    match parse_i64_spec(trim(body)) {
        Some(t) => Some(elapsed_spec(now, t)),
        None => None,
    }
}

pub fn mirror_age_seconds(body: &str, now: i64) -> (r: Option<i64>)
    ensures
        r == mirror_age_spec(body@, now),
{
    let t = trim_str(body);
    match parse_i64(t.as_str()) {
        Some(ts) => Some(elapsed_seconds(now, ts)),
        None => None,
    }
}

/// Age of a mirror's last sync against the clock: present exactly when the
/// body reads as a Unix time.
pub fn mirror_sync_age(body: &str) -> (r: Option<i64>)
    ensures
        r is Some <==> parse_i64_spec(trim(body@)) is Some,
        r matches Some(v) ==> v >= 0,
{
    let now = now_seconds();
    mirror_age_seconds(body, now)
}

} // verus!
