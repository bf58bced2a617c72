//! The sync-progress tracker: three named databases, each syncing at some
//! percentage or complete, fed one output line at a time.
use vstd::prelude::*;
use crate::number::{
    decimal, is_digit, lemma_decimal_digits, parse_u8, parse_u8_spec, push_decimal,
    unsigned_digits,
};
use crate::text::{
    contains, contains_str, ends_with, ends_with_str, is_space, is_space_char, starts_with,
    starts_with_str, str_eq, strip_ansi, strip_escapes, strip_run, trim, trim_end, trim_start,
    trim_str, occurs_at, EscState,
};

verus! {

/// The sync state of one database.
#[derive(Clone, Copy, Debug, PartialEq, Eq, Structural)]
pub enum DbSyncState {
    Syncing(u8),
    Complete,
}

/// The sync state of the three databases the tool follows.
#[derive(Clone, Copy, Debug, PartialEq, Eq, Structural)]
pub struct SyncProgress {
    pub core: DbSyncState,
    pub extra: DbSyncState,
    pub multilib: DbSyncState,
}

/// Index of the first whitespace character at or after `i`, or the length.
pub open spec fn first_space_from(s: Seq<char>, i: int) -> int
    decreases s.len() - i,
{
    if i >= s.len() {
        s.len() as int
    } else if is_space(s[i]) {
        i
    } else {
        first_space_from(s, i + 1)
    }
}

/// Index of the last whitespace character before `j`, or -1.
pub open spec fn last_space_before(s: Seq<char>, j: int) -> int
    decreases j,
{
    if j <= 0 {
        -1
    } else if is_space(s[j - 1]) {
        j - 1
    } else {
        last_space_before(s, j - 1)
    }
}

/// The first whitespace-separated word of trimmed text.
pub open spec fn first_word(t: Seq<char>) -> Seq<char> {
    t.take(first_space_from(t, 0))
}

/// The last whitespace-separated word of trimmed text.
pub open spec fn last_word(t: Seq<char>) -> Seq<char> {
    t.skip(last_space_before(t, t.len() as int) + 1)
}

/// Trimmed text splits into at least two words.
pub open spec fn has_two_words(t: Seq<char>) -> bool {
    first_space_from(t, 0) < t.len()
}

/// The state that a percentage reading stands for.
pub open spec fn percent_state(v: u8) -> DbSyncState {
    if v >= 100 {
        DbSyncState::Complete
    } else {
        DbSyncState::Syncing(v)
    }
}

/// `p` with the database called `name` set to `st`; unknown names change nothing.
pub open spec fn set_named(p: SyncProgress, name: Seq<char>, st: DbSyncState) -> SyncProgress {
    if name == "core"@ {
        SyncProgress { core: st, extra: p.extra, multilib: p.multilib }
    } else if name == "extra"@ {
        SyncProgress { core: p.core, extra: st, multilib: p.multilib }
    } else if name == "multilib"@ {
        SyncProgress { core: p.core, extra: p.extra, multilib: st }
    } else {
        p
    }
}

/// The visible, trimmed text of an output line.
pub open spec fn clean_line(line: Seq<char>) -> Seq<char> {
    trim(strip_escapes(line))
}

/// The percentage that the last word `w` of a line reads as, if any.
pub open spec fn percent_of(w: Seq<char>) -> Option<u8> {
    if ends_with(w, "%"@) {
        parse_u8_spec(w.drop_last())
    } else {
        None
    }
}

/// What one line of sync output does to the progress.
pub open spec fn update_spec(p: SyncProgress, line: Seq<char>) -> SyncProgress {
    let t = clean_line(line);
    if contains(t, "is up to date"@) {
        if starts_with(t, "core"@) {
            SyncProgress { core: DbSyncState::Complete, extra: p.extra, multilib: p.multilib }
        } else if starts_with(t, "extra"@) {
            SyncProgress { core: p.core, extra: DbSyncState::Complete, multilib: p.multilib }
        } else if starts_with(t, "multilib"@) {
            SyncProgress { core: p.core, extra: p.extra, multilib: DbSyncState::Complete }
        } else {
            p
        }
    } else if has_two_words(t) {
        match percent_of(last_word(t)) {
            Some(v) => set_named(p, first_word(t), percent_state(v)),
            None => p,
        }
    } else {
        p
    }
}

pub open spec fn state_text(st: DbSyncState) -> Seq<char> {
    match st {
        DbSyncState::Syncing(v) => decimal(v as nat) + "%"@,
        DbSyncState::Complete => "✓"@,
    }
}

/// The one-line rendering `core <s> | extra <s> | multilib <s>`.
pub open spec fn format_spec(p: SyncProgress) -> Seq<char> {
    "core "@ + state_text(p.core) + " | extra "@ + state_text(p.extra) + " | multilib "@
        + state_text(p.multilib)
}

/// Index of the first whitespace character of `s`, or its length.
fn first_space(s: &str) -> (r: usize)
    ensures
        r == first_space_from(s@, 0),
{
    let n = s.unicode_len();
    let mut i: usize = 0;
    while i < n && !is_space_char(s.get_char(i))
        invariant
            n == s@.len(),
            i <= n,
            first_space_from(s@, 0) == first_space_from(s@, i as int),
        decreases n - i,
    {
        i += 1;
    }
    i
}

/// Index just past the last whitespace character of `s`, or 0.
fn last_word_start(s: &str) -> (r: usize)
    ensures
        r == last_space_before(s@, s@.len() as int) + 1,
{
    let n = s.unicode_len();
    let mut j: usize = n;
    while j > 0 && !is_space_char(s.get_char(j - 1))
        invariant
            n == s@.len(),
            j <= n,
            last_space_before(s@, n as int) == last_space_before(s@, j as int),
        decreases j,
    {
        j -= 1;
    }
    j
}

impl DbSyncState {
    pub fn format_state(self) -> (r: String)
        ensures
            r@ == state_text(self),
    {
        match self {
            DbSyncState::Syncing(v) => {
                let mut s = String::new();
                push_decimal(&mut s, v as u64);
                s.append("%");
                s
            },
            DbSyncState::Complete => "✓".to_owned(),
        }
    }
}

impl SyncProgress {
    /// Every database starts at zero percent.
    pub fn new() -> (r: SyncProgress)
        ensures
            r.core == DbSyncState::Syncing(0),
            r.extra == DbSyncState::Syncing(0),
            r.multilib == DbSyncState::Syncing(0),
    {
        SyncProgress {
            core: DbSyncState::Syncing(0),
            extra: DbSyncState::Syncing(0),
            multilib: DbSyncState::Syncing(0),
        }
    }

    /// Every database complete.
    pub fn all_complete() -> (r: SyncProgress)
        ensures
            r.core == DbSyncState::Complete,
            r.extra == DbSyncState::Complete,
            r.multilib == DbSyncState::Complete,
    {
        SyncProgress {
            core: DbSyncState::Complete,
            extra: DbSyncState::Complete,
            multilib: DbSyncState::Complete,
        }
    }

    pub fn format_state(state: DbSyncState) -> (r: String)
        ensures
            r@ == state_text(state),
    {
        state.format_state()
    }

    pub fn format(&self) -> (r: String)
        ensures
            r@ == format_spec(*self),
    {
        let mut s = "core ".to_owned();
        let a = self.core.format_state();
        s.append(a.as_str());
        s.append(" | extra ");
        let b = self.extra.format_state();
        s.append(b.as_str());
        s.append(" | multilib ");
        let c = self.multilib.format_state();
        s.append(c.as_str());
        s
    }

    fn set_by_name(&mut self, name: &str, st: DbSyncState)
        ensures
            *final(self) == set_named(*old(self), name@, st),
    {
        if str_eq(name, "core") {
            self.core = st;
        } else if str_eq(name, "extra") {
            self.extra = st;
        } else if str_eq(name, "multilib") {
            self.multilib = st;
        }
    }

    /// Classifies one line of sync output and updates the matching database.
    /// Lines that name no known database, or carry no readable percentage,
    /// change nothing.
    pub fn update_from_line(&mut self, line: &str)
        ensures
            *final(self) == update_spec(*old(self), line@),
    {
        let clean = strip_ansi(line);
        let t = trim_str(clean.as_str());
        let ts = t.as_str();
        proof {
            assert(ts@ == clean_line(line@));
        }
        if contains_str(ts, "is up to date") {
            if starts_with_str(ts, "core") {
                self.core = DbSyncState::Complete;
            } else if starts_with_str(ts, "extra") {
                self.extra = DbSyncState::Complete;
            } else if starts_with_str(ts, "multilib") {
                self.multilib = DbSyncState::Complete;
            }
            return;
        }
        let n = ts.unicode_len();
        let fs = first_space(ts);
        if fs >= n {
            return;
        }
        let ls = last_word_start(ts);
        proof {
            lemma_last_space_in_range(ts@, n as int);
        }
        let name = ts.substring_char(0, fs);
        let last = ts.substring_char(ls, n);
        if !ends_with_str(last, "%") {
            return;
        }
        proof {
            reveal_strlit("%");
        }
        let m = last.unicode_len();
        let digits = last.substring_char(0, m - 1);
        proof {
            assert(digits@ =~= last@.drop_last());
        }
        match parse_u8(digits) {
            Some(v) => {
                let st = if v >= 100 {
                    DbSyncState::Complete
                } else {
                    DbSyncState::Syncing(v)
                };
                self.set_by_name(name, st);
            },
            None => {},
        }
    }
}

proof fn lemma_last_space_in_range(s: Seq<char>, j: int)
    requires
        0 <= j <= s.len(),
    ensures
        -1 <= last_space_before(s, j) < j,
    decreases j,
{
    if j > 0 && !is_space(s[j - 1]) {
        lemma_last_space_in_range(s, j - 1);
    }
}

proof fn lemma_strip_plain(s: Seq<char>)
    requires
        forall|i: int| 0 <= i < s.len() ==> s[i] != '\u{1b}',
    ensures
        strip_run(s) == (EscState::Text, s),
    decreases s.len(),
{
    if s.len() > 0 {
        lemma_strip_plain(s.drop_last());
        assert(s.drop_last() + seq![s.last()] =~= s);
    }
}

proof fn lemma_first_space(s: Seq<char>, i: int, k: int)
    requires
        0 <= i <= k < s.len(),
        is_space(s[k]),
        forall|j: int| i <= j < k ==> !is_space(s[j]),
    ensures
        first_space_from(s, i) == k,
    decreases k - i,
{
    if i < k {
        lemma_first_space(s, i + 1, k);
    }
}

proof fn lemma_last_space(s: Seq<char>, j: int, k: int)
    requires
        0 <= k < j <= s.len(),
        is_space(s[k]),
        forall|m: int| k < m < j ==> !is_space(s[m]),
    ensures
        last_space_before(s, j) == k,
    decreases j,
{
    if j - 1 > k {
        lemma_last_space(s, j - 1, k);
    }
}

proof fn lemma_first_space_bounds(s: Seq<char>, i: int)
    requires
        0 <= i,
    ensures
        0 <= first_space_from(s, i) <= s.len(),
    decreases s.len() - i,
{
    if i < s.len() && !is_space(s[i]) {
        lemma_first_space_bounds(s, i + 1);
    }
}

/// The names of the three followed databases.
pub open spec fn is_known_name(name: Seq<char>) -> bool {
    name == "core"@ || name == "extra"@ || name == "multilib"@
}

/// The progress line `<name> <n>%`.
pub open spec fn percent_line(name: Seq<char>, n: u8) -> Seq<char> {
    name + seq![' '] + decimal(n as nat) + "%"@
}

/// A line `<name> <n>%` for a followed database sets that database to the
/// state the percentage stands for (syncing below 100, complete from 100),
/// and leaves the other two as they were.
pub proof fn lemma_percent_line(p: SyncProgress, name: Seq<char>, n: u8)
    requires
        is_known_name(name),
    ensures
        update_spec(p, percent_line(name, n)) == set_named(p, name, percent_state(n)),
{
    reveal_strlit("core");
    reveal_strlit("extra");
    reveal_strlit("multilib");
    reveal_strlit("%");
    reveal_strlit("is up to date");
    let d = decimal(n as nat);
    lemma_decimal_digits(n as nat);
    let l = percent_line(name, n);
    let k = name.len() as int;
    assert(l.len() == k + 1 + d.len() + 1);
    assert forall|i: int| 0 <= i < l.len() implies l[i] != '\u{1b}' && (is_space(l[i]) <==> i
        == k) by {
        if i < k {
            assert(l[i] == name[i]);
        } else if i == k {
            assert(l[i] == ' ');
        } else if i < k + 1 + d.len() {
            assert(l[i] == d[i - k - 1]);
            assert(is_digit(d[i - k - 1]));
        } else {
            assert(l[i] == '%');
        }
    }
    lemma_strip_plain(l);
    assert(strip_escapes(l) == l);
    assert(trim_start(l) == l);
    assert(trim_end(l) == l);
    assert(clean_line(l) == l);
    let pat = "is up to date"@;
    assert(!contains(l, pat)) by {
        if contains(l, pat) {
            let i = choose|i: int| occurs_at(l, pat, i);
            assert(l.subrange(i, i + pat.len())[2] == pat[2]);
            assert(l.subrange(i, i + pat.len())[5] == pat[5]);
            assert(l[i + 2] == ' ');
            assert(l[i + 5] == ' ');
        }
    }
    lemma_first_space(l, 0, k);
    lemma_last_space(l, l.len() as int, k);
    assert(has_two_words(l));
    assert(first_word(l) =~= name);
    let w = last_word(l);
    assert(w =~= d + "%"@);
    assert(w.subrange(w.len() - 1, w.len() as int) =~= "%"@);
    assert(ends_with(w, "%"@));
    assert(w.drop_last() =~= d);
    assert(unsigned_digits(d) == d);
    assert(parse_u8_spec(d) == Some(n));
    assert(percent_of(w) == Some(n));
}

/// A percentage line below 100 for a followed database reports it syncing
/// at that percentage; the other two are untouched.
pub proof fn law_percent_below_hundred(p: SyncProgress, name: Seq<char>, n: u8)
    requires
        is_known_name(name),
        n <= 99,
    ensures
        update_spec(p, percent_line(name, n)) == set_named(p, name, DbSyncState::Syncing(n)),
{
    lemma_percent_line(p, name, n);
}

/// A percentage line of 100 or more (that still reads as a `u8`) for a
/// followed database reports it complete.
pub proof fn law_percent_hundred_complete(p: SyncProgress, name: Seq<char>, n: u8)
    requires
        is_known_name(name),
        n >= 100,
    ensures
        update_spec(p, percent_line(name, n)) == set_named(p, name, DbSyncState::Complete),
{
    lemma_percent_line(p, name, n);
}

/// A line that says `is up to date` and starts with a followed database's
/// name reports that database complete, and only that one.
pub proof fn law_up_to_date_complete(p: SyncProgress, name: Seq<char>, line: Seq<char>)
    requires
        is_known_name(name),
        contains(clean_line(line), "is up to date"@),
        starts_with(clean_line(line), name),
    ensures
        update_spec(p, line) == set_named(p, name, DbSyncState::Complete),
{
    reveal_strlit("core");
    reveal_strlit("extra");
    reveal_strlit("multilib");
    let t = clean_line(line);
    assert(t.subrange(0, name.len() as int)[0] == name[0]);
    if starts_with(t, "core"@) {
        assert(t.subrange(0, 4)[0] == 'c');
    }
    if starts_with(t, "extra"@) {
        assert(t.subrange(0, 5)[0] == 'e');
    }
}

/// A line whose visible text starts with none of the followed names
/// changes nothing.
pub proof fn law_unknown_name_unchanged(p: SyncProgress, line: Seq<char>)
    requires
        !starts_with(clean_line(line), "core"@),
        !starts_with(clean_line(line), "extra"@),
        !starts_with(clean_line(line), "multilib"@),
    ensures
        update_spec(p, line) == p,
{
    let t = clean_line(line);
    let w = first_word(t);
    lemma_first_space_bounds(t, 0);
    if w == "core"@ || w == "extra"@ || w == "multilib"@ {
        assert(t.subrange(0, w.len() as int) =~= w);
    }
}

/// A line that is not an `is up to date` line and whose last word is not a
/// readable percentage changes nothing.
pub proof fn law_malformed_percent_unchanged(p: SyncProgress, line: Seq<char>)
    requires
        !contains(clean_line(line), "is up to date"@),
        percent_of(last_word(clean_line(line))) is None,
    ensures
        update_spec(p, line) == p,
{
}

} // verus!
