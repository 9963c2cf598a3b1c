//! Small verified text helpers shared by the parsers: character-wise string
//! equality, prefix tests, substring search and ASCII whitespace trimming.

use vstd::prelude::*;

verus! {

/// ASCII whitespace, as found around values read from status files and the
/// command channel.
pub open spec fn is_space_char(c: char) -> bool {
    c == ' ' || c == '\t' || c == '\n' || c == '\r'
}

fn is_space(c: char) -> (r: bool)
    ensures
        r == is_space_char(c),
{
    c == ' ' || c == '\t' || c == '\n' || c == '\r'
}

/// Whether two string slices hold the same characters.
pub fn str_eq(a: &str, b: &str) -> (r: bool)
    ensures
        r == (a@ == b@),
{
    let na = a.unicode_len();
    let nb = b.unicode_len();
    if na != nb {
        return false;
    }
    let mut i: usize = 0;
    while i < na
        invariant
            i <= na,
            na == a@.len(),
            na == b@.len(),
            forall|j: int| 0 <= j < i ==> a@[j] == b@[j],
        decreases na - i,
    {
        if a.get_char(i) != b.get_char(i) {
            return false;
        }
        i += 1;
    }
    proof {
        assert(a@ =~= b@);
    }
    true
}

/// Whether `s` starts with the characters of `prefix`.
pub open spec fn has_prefix(s: Seq<char>, prefix: Seq<char>) -> bool {
    prefix.len() <= s.len() && s.subrange(0, prefix.len() as int) == prefix
}

/// Whether the string starts with the given prefix.
pub fn str_has_prefix(s: &str, prefix: &str) -> (r: bool)
    ensures
        r == has_prefix(s@, prefix@),
{
    let n = s.unicode_len();
    let np = prefix.unicode_len();
    if np > n {
        return false;
    }
    let head = s.substring_char(0, np);
    let r = str_eq(head, prefix);
    r
}

/// Whether the characters of `pat` occur contiguously somewhere in `s`.
pub open spec fn contains_seq(s: Seq<char>, pat: Seq<char>) -> bool {
    exists|k: int|
        0 <= k <= s.len() - pat.len() && #[trigger] s.subrange(k, k + pat.len() as int) == pat
}

/// Whether `pat` occurs as a substring of `s`.
pub fn str_contains(s: &str, pat: &str) -> (r: bool)
    ensures
        r == contains_seq(s@, pat@),
{
    let n = s.unicode_len();
    let np = pat.unicode_len();
    if np > n {
        return false;
    }
    if np == 0 {
        proof {
            assert(s@.subrange(0, 0 + pat@.len() as int) =~= pat@);
        }
        return true;
    }
    let mut k: usize = 0;
    while k <= n - np
        invariant
            1 <= np <= n,
            n == s@.len(),
            np == pat@.len(),
            k <= n - np + 1,
            forall|j: int|
                0 <= j < k ==> #[trigger] s@.subrange(j, j + pat@.len() as int) != pat@,
        decreases n - k,
    {
        let window = s.substring_char(k, k + np);
        if str_eq(window, pat) {
            return true;
        }
        k += 1;
    }
    false
}

/// The sequence with leading ASCII whitespace removed.
pub open spec fn trim_start_seq(s: Seq<char>) -> Seq<char>
    decreases s.len(),
{
    if s.len() > 0 && is_space_char(s[0]) {
        trim_start_seq(s.drop_first())
    } else {
        s
    }
}

/// The sequence with trailing ASCII whitespace removed.
pub open spec fn trim_end_seq(s: Seq<char>) -> Seq<char>
    decreases s.len(),
{
    if s.len() > 0 && is_space_char(s[s.len() - 1]) {
        trim_end_seq(s.drop_last())
    } else {
        s
    }
}

/// The sequence with ASCII whitespace removed from both ends.
pub open spec fn trim_seq(s: Seq<char>) -> Seq<char> {
    trim_end_seq(trim_start_seq(s))
}

proof fn lemma_trim_start_subrange(s: Seq<char>, lo: int)
    requires
        0 <= lo <= s.len(),
        forall|j: int| 0 <= j < lo ==> is_space_char(s[j]),
        lo < s.len() ==> !is_space_char(s[lo]),
    ensures
        trim_start_seq(s) == s.subrange(lo, s.len() as int),
    decreases lo,
{
    if lo == 0 {
        assert(trim_start_seq(s) =~= s.subrange(0, s.len() as int));
    } else {
        let t = s.drop_first();
        assert(t =~= s.subrange(1, s.len() as int));
        lemma_trim_start_subrange(t, lo - 1);
        assert(t.subrange(lo - 1, t.len() as int) =~= s.subrange(lo, s.len() as int));
    }
}

proof fn lemma_trim_end_subrange(s: Seq<char>, hi: int)
    requires
        0 <= hi <= s.len(),
        forall|j: int| hi <= j < s.len() ==> is_space_char(s[j]),
        hi > 0 ==> !is_space_char(s[hi - 1]),
    ensures
        trim_end_seq(s) == s.subrange(0, hi),
    decreases s.len() - hi,
{
    if hi == s.len() {
        assert(trim_end_seq(s) =~= s.subrange(0, hi));
    } else {
        let t = s.drop_last();
        assert(t =~= s.subrange(0, s.len() - 1));
        lemma_trim_end_subrange(t, hi);
        assert(t.subrange(0, hi) =~= s.subrange(0, hi));
    }
}

/// Removes ASCII whitespace from both ends of a string.
pub fn trim_ascii<'a>(s: &'a str) -> (r: &'a str)
    ensures
        r@ == trim_seq(s@),
{
    let n = s.unicode_len();
    let mut lo: usize = 0;
    loop
        invariant
            lo <= n,
            n == s@.len(),
            forall|j: int| 0 <= j < lo ==> is_space_char(s@[j]),
        ensures
            lo <= n,
            forall|j: int| 0 <= j < lo ==> is_space_char(s@[j]),
            lo < n ==> !is_space_char(s@[lo as int]),
        decreases n - lo,
    {
        if lo >= n {
            break;
        }
        if !is_space(s.get_char(lo)) {
            break;
        }
        lo += 1;
    }
    let mut hi: usize = n;
    loop
        invariant
            lo <= hi <= n,
            n == s@.len(),
            forall|j: int| hi <= j < n ==> is_space_char(s@[j]),
        ensures
            lo <= hi <= n,
            forall|j: int| hi <= j < n ==> is_space_char(s@[j]),
            hi > lo ==> !is_space_char(s@[hi - 1]),
        decreases hi,
    {
        if hi <= lo {
            break;
        }
        if !is_space(s.get_char(hi - 1)) {
            break;
        }
        hi -= 1;
    }
    proof {
        lemma_trim_start_subrange(s@, lo as int);
        let t = s@.subrange(lo as int, n as int);
        if hi > lo {
            lemma_trim_end_subrange(t, hi - lo as int);
        } else {
            // everything from lo on is whitespace, so the trimmed middle is empty
            lemma_trim_end_subrange(t, 0);
        }
        assert(t.subrange(0, hi - lo as int) =~= s@.subrange(lo as int, hi as int));
    }
    s.substring_char(lo, hi)
}

} // verus!
