//! Character-level text helpers: terminal escape stripping, whitespace
//! trimming and substring search, each with a specification over `Seq<char>`.
use vstd::prelude::*;

verus! {

/// Relies on `String::push`: the character is appended at the end.
pub assume_specification[ String::push ](s: &mut String, ch: char)
    ensures
        final(s)@ == old(s)@.push(ch),
;

/// The characters that carry Unicode's `White_Space` property.
pub open spec fn is_space(c: char) -> bool {
    ||| ('\u{9}' <= c && c <= '\u{d}')
    ||| c == ' '
    ||| c == '\u{85}'
    ||| c == '\u{a0}'
    ||| c == '\u{1680}'
    ||| ('\u{2000}' <= c && c <= '\u{200a}')
    ||| c == '\u{2028}'
    ||| c == '\u{2029}'
    ||| c == '\u{202f}'
    ||| c == '\u{205f}'
    ||| c == '\u{3000}'
}

pub fn is_space_char(c: char) -> (r: bool)
    ensures
        r == is_space(c),
{
    ('\u{9}' <= c && c <= '\u{d}') || c == ' ' || c == '\u{85}' || c == '\u{a0}' || c == '\u{1680}'
        || ('\u{2000}' <= c && c <= '\u{200a}') || c == '\u{2028}' || c == '\u{2029}' || c
        == '\u{202f}' || c == '\u{205f}' || c == '\u{3000}'
}

pub open spec fn trim_start(s: Seq<char>) -> Seq<char>
    decreases s.len(),
{
    if s.len() > 0 && is_space(s[0]) {
        trim_start(s.drop_first())
    } else {
        s
    }
}

pub open spec fn trim_end(s: Seq<char>) -> Seq<char>
    decreases s.len(),
{
    if s.len() > 0 && is_space(s.last()) {
        trim_end(s.drop_last())
    } else {
        s
    }
}

/// Leading and trailing whitespace removed.
pub open spec fn trim(s: Seq<char>) -> Seq<char> {
    trim_end(trim_start(s))
}

/// `pat` occurs in `s` starting at index `i`.
pub open spec fn occurs_at(s: Seq<char>, pat: Seq<char>, i: int) -> bool {
    0 <= i && i + pat.len() <= s.len() && s.subrange(i, i + pat.len()) == pat
}

pub open spec fn contains(s: Seq<char>, pat: Seq<char>) -> bool {
    exists|i: int| occurs_at(s, pat, i)
}

pub open spec fn starts_with(s: Seq<char>, pat: Seq<char>) -> bool {
    occurs_at(s, pat, 0)
}

pub open spec fn ends_with(s: Seq<char>, pat: Seq<char>) -> bool {
    occurs_at(s, pat, s.len() - pat.len())
}

/// The state of the escape-sequence recognizer between two characters.
pub enum EscState {
    Text,
    Escape,
    Csi,
    Osc,
    OscEscape,
}

/// What a character outside any escape sequence does.
pub open spec fn text_step(c: char) -> (EscState, Seq<char>) {
    if c == '\u{1b}' {
        (EscState::Escape, Seq::empty())
    } else {
        (EscState::Text, seq![c])
    }
}

/// One character of input: the next state and what is emitted.
pub open spec fn esc_step(st: EscState, c: char) -> (EscState, Seq<char>) {
    match st {
        EscState::Text => text_step(c),
        EscState::Escape => {
            if c == '[' {
                (EscState::Csi, Seq::empty())
            } else if c == ']' {
                (EscState::Osc, Seq::empty())
            } else {
                (EscState::Text, Seq::empty())
            }
        },
        EscState::Csi => {
            if '@' <= c && c <= '~' {
                (EscState::Text, Seq::empty())
            } else {
                (EscState::Csi, Seq::empty())
            }
        },
        EscState::Osc => {
            if c == '\u{7}' {
                (EscState::Text, Seq::empty())
            } else if c == '\u{1b}' {
                (EscState::OscEscape, Seq::empty())
            } else {
                (EscState::Osc, Seq::empty())
            }
        },
        EscState::OscEscape => {
            if c == '\\' {
                (EscState::Text, Seq::empty())
            } else {
                text_step(c)
            }
        },
    }
}

/// The recognizer run over `s` from the start: final state and visible text.
pub open spec fn strip_run(s: Seq<char>) -> (EscState, Seq<char>)
    decreases s.len(),
{
    if s.len() == 0 {
        (EscState::Text, Seq::empty())
    } else {
        let prev = strip_run(s.drop_last());
        let next = esc_step(prev.0, s.last());
        (next.0, prev.1 + next.1)
    }
}

/// The visible text of `s`: CSI (`ESC [ ... final`), OSC (`ESC ] ... BEL`
/// or `ESC ] ... ESC \`) and two-character escapes removed; an unterminated
/// sequence runs to the end of the input.
pub open spec fn strip_escapes(s: Seq<char>) -> Seq<char> {
    strip_run(s).1
}

/// Removes terminal control sequences, keeping every other character.
pub fn strip_ansi(s: &str) -> (r: String)
    ensures
        r@ == strip_escapes(s@),
{
    let n = s.unicode_len();
    let mut out = String::new();
    let mut st = EscState::Text;
    let mut i: usize = 0;
    while i < n
        invariant
            n == s@.len(),
            i <= n,
            strip_run(s@.subrange(0, i as int)) == (st, out@),
        decreases n - i,
    {
        let c = s.get_char(i);
        proof {
            assert(s@.subrange(0, i + 1).drop_last() =~= s@.subrange(0, i as int));
        }
        st = match st {
            EscState::Text => {
                if c == '\u{1b}' {
                    EscState::Escape
                } else {
                    out.push(c);
                    EscState::Text
                }
            },
            EscState::Escape => {
                if c == '[' {
                    EscState::Csi
                } else if c == ']' {
                    EscState::Osc
                } else {
                    EscState::Text
                }
            },
            EscState::Csi => {
                if '@' <= c && c <= '~' {
                    EscState::Text
                } else {
                    EscState::Csi
                }
            },
            EscState::Osc => {
                if c == '\u{7}' {
                    EscState::Text
                } else if c == '\u{1b}' {
                    EscState::OscEscape
                } else {
                    EscState::Osc
                }
            },
            EscState::OscEscape => {
                if c == '\\' {
                    EscState::Text
                } else if c == '\u{1b}' {
                    EscState::Escape
                } else {
                    out.push(c);
                    EscState::Text
                }
            },
        };
        proof {
            assert(out@ =~= strip_run(s@.subrange(0, i + 1)).1);
        }
        i += 1;
    }
    proof {
        assert(s@.subrange(0, n as int) =~= s@);
    }
    out
}

/// `pat` occurs in `s` at index `i` (no bound on `i` is assumed).
pub fn occurs_at_index(s: &str, pat: &str, i: usize) -> (r: bool)
    ensures
        r == occurs_at(s@, pat@, i as int),
{
    let n = s.unicode_len();
    let m = pat.unicode_len();
    if i > n || m > n - i {
        return false;
    }
    let mut k: usize = 0;
    while k < m
        invariant
            n == s@.len(),
            m == pat@.len(),
            i + m <= n,
            k <= m,
            forall|t: int| 0 <= t < k ==> s@[i + t] == pat@[t],
        decreases m - k,
    {
        if s.get_char(i + k) != pat.get_char(k) {
            proof {
                assert(s@.subrange(i as int, i + m)[k as int] != pat@[k as int]);
            }
            return false;
        }
        k += 1;
    }
    proof {
        assert(s@.subrange(i as int, i + m) =~= pat@);
    }
    true
}

/// The first index at which `pat` occurs in `s`.
pub fn find(s: &str, pat: &str) -> (r: Option<usize>)
    ensures
        r matches Some(i) ==> occurs_at(s@, pat@, i as int) && forall|j: int|
            0 <= j < i ==> !occurs_at(s@, pat@, j),
        r is None ==> !contains(s@, pat@),
{
    let n = s.unicode_len();
    let m = pat.unicode_len();
    if m > n {
        return None;
    }
    let mut i: usize = 0;
    loop
        invariant
            n == s@.len(),
            m == pat@.len(),
            m <= n,
            i <= n - m,
            forall|j: int| 0 <= j < i ==> !occurs_at(s@, pat@, j),
        decreases n - m - i,
    {
        if occurs_at_index(s, pat, i) {
            return Some(i);
        }
        if i == n - m {
            return None;
        }
        i += 1;
    }
}

pub fn contains_str(s: &str, pat: &str) -> (r: bool)
    ensures
        r == contains(s@, pat@),
{
    match find(s, pat) {
        Some(_) => true,
        None => false,
    }
}

pub fn starts_with_str(s: &str, pat: &str) -> (r: bool)
    ensures
        r == starts_with(s@, pat@),
{
    occurs_at_index(s, pat, 0)
}

pub fn ends_with_str(s: &str, pat: &str) -> (r: bool)
    ensures
        r == ends_with(s@, pat@),
{
    let n = s.unicode_len();
    let m = pat.unicode_len();
    if m > n {
        return false;
    }
    occurs_at_index(s, pat, n - m)
}

/// Two strings hold the same characters.
pub fn str_eq(a: &str, b: &str) -> (r: bool)
    ensures
        r == (a@ == b@),
{
    let n = a.unicode_len();
    if n != b.unicode_len() {
        return false;
    }
    let r = occurs_at_index(a, b, 0);
    proof {
        assert(a@.subrange(0, n as int) =~= a@);
    }
    r
}

/// Index of the first non-whitespace character, or the length.
pub fn trim_start_index(s: &str) -> (i: usize)
    ensures
        i <= s@.len(),
        trim_start(s@) == s@.subrange(i as int, s@.len() as int),
{
    let n = s.unicode_len();
    let mut i: usize = 0;
    proof {
        assert(s@.subrange(0, n as int) =~= s@);
    }
    while i < n && is_space_char(s.get_char(i))
        invariant
            n == s@.len(),
            i <= n,
            trim_start(s@) == trim_start(s@.subrange(i as int, n as int)),
        decreases n - i,
    {
        proof {
            assert(s@.subrange(i as int, n as int).drop_first() =~= s@.subrange(i + 1, n as int));
        }
        i += 1;
    }
    i
}

/// The text with leading and trailing whitespace removed.
pub fn trim_str(s: &str) -> (r: String)
    ensures
        r@ == trim(s@),
{
    let n = s.unicode_len();
    let i = trim_start_index(s);
    let mut j: usize = n;
    proof {
        assert(s@.subrange(i as int, n as int) =~= s@.subrange(i as int, j as int));
    }
    while j > i && is_space_char(s.get_char(j - 1))
        invariant
            n == s@.len(),
            i <= j <= n,
            trim_end(s@.subrange(i as int, n as int)) == trim_end(s@.subrange(i as int, j as int)),
        decreases j,
    {
        proof {
            assert(s@.subrange(i as int, j as int).drop_last() =~= s@.subrange(i as int, j - 1));
        }
        j -= 1;
    }
    s.substring_char(i, j).to_owned()
}

/// Index of the first occurrence of `pat` at or after `i`, or -1.
pub open spec fn find_from(s: Seq<char>, pat: Seq<char>, i: int) -> int
    decreases s.len() + 1 - i,
{
    if i < 0 || i + pat.len() > s.len() {
        -1
    } else if occurs_at(s, pat, i) {
        i
    } else {
        find_from(s, pat, i + 1)
    }
}

/// Index of the first occurrence of `pat` in `s`, or -1.
pub open spec fn first_index(s: Seq<char>, pat: Seq<char>) -> int {
    find_from(s, pat, 0)
}

/// The text before the first occurrence of `pat`, or all of it.
pub open spec fn before_first(s: Seq<char>, pat: Seq<char>) -> Seq<char> {
    if first_index(s, pat) >= 0 {
        s.take(first_index(s, pat))
    } else {
        s
    }
}

proof fn lemma_find_from_first(s: Seq<char>, pat: Seq<char>, i: int, k: int)
    requires
        0 <= i <= k,
        occurs_at(s, pat, k),
        forall|j: int| 0 <= j < k ==> !occurs_at(s, pat, j),
    ensures
        find_from(s, pat, i) == k,
    decreases k - i,
{
    if i < k {
        lemma_find_from_first(s, pat, i + 1, k);
    }
}

proof fn lemma_find_from_none(s: Seq<char>, pat: Seq<char>, i: int)
    requires
        0 <= i,
        !contains(s, pat),
    ensures
        find_from(s, pat, i) == -1,
    decreases s.len() + 1 - i,
{
    if i + pat.len() <= s.len() {
        assert(!occurs_at(s, pat, i));
        lemma_find_from_none(s, pat, i + 1);
    }
}

/// The first index at which `pat` occurs.
pub fn index_of(s: &str, pat: &str) -> (r: Option<usize>)
    ensures
        r matches Some(i) ==> i == first_index(s@, pat@) && occurs_at(s@, pat@, i as int),
        r is None ==> first_index(s@, pat@) == -1,
        r is Some <==> contains(s@, pat@),
{
    let r = find(s, pat);
    proof {
        match r {
            Some(i) => lemma_find_from_first(s@, pat@, 0, i as int),
            None => lemma_find_from_none(s@, pat@, 0),
        }
    }
    r
}

/// The text before the first occurrence of `pat`, or all of it.
pub fn split_before(s: &str, pat: &str) -> (r: String)
    ensures
        r@ == before_first(s@, pat@),
{
    match index_of(s, pat) {
        Some(k) => s.substring_char(0, k).to_owned(),
        None => s.to_owned(),
    }
}

} // verus!
