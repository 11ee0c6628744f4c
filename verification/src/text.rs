//! Verified text utilities: character search, whitespace trimming, suffix
//! handling and string equality, stated over `Seq<char>` views.

use vstd::prelude::*;
use vstd::string::StrSliceExecFns;
use vstd::string::StringExecFns;

verus! {

/// The whitespace characters the config format trims around values.
pub open spec fn is_space_char(c: char) -> bool {
    c == ' ' || c == '\t' || c == '\r' || c == '\n'
}

/// Index of the first occurrence of `c` in `s`, if any.
pub open spec fn find_first(s: Seq<char>, c: char) -> Option<int>
    decreases s.len(),
{
    if s.len() == 0 {
        None
    } else if s[0] == c {
        Some(0int)
    } else {
        match find_first(s.skip(1), c) {
            None => None,
            Some(i) => Some(i + 1),
        }
    }
}

/// `find_first` returns the least index holding `c`, or `None` when `c` does
/// not occur.
pub proof fn lemma_find_first(s: Seq<char>, c: char)
    ensures
        match find_first(s, c) {
            None => forall|j: int| 0 <= j < s.len() ==> s[j] != c,
            Some(i) => 0 <= i < s.len() && s[i] == c && (forall|j: int| 0 <= j < i ==> s[j] != c),
        },
    decreases s.len(),
{
    if s.len() == 0 {
    } else if s[0] == c {
    } else {
        lemma_find_first(s.skip(1), c);
        match find_first(s.skip(1), c) {
            None => {
                assert forall|j: int| 0 <= j < s.len() implies s[j] != c by {
                    if j > 0 {
                        assert(s.skip(1)[j - 1] == s[j]);
                    }
                }
            },
            Some(i) => {
                assert(s.skip(1)[i] == s[i + 1]);
                assert forall|j: int| 0 <= j < i + 1 implies s[j] != c by {
                    if j > 0 {
                        assert(s.skip(1)[j - 1] == s[j]);
                    }
                }
            },
        }
    }
}

/// Searches `s` for `c` within the index window `[from, to)`.
pub fn find_char_in(s: &str, from: usize, to: usize, c: char) -> (r: Option<usize>)
    requires
        from <= to <= s@.len(),
    ensures
        match r {
            Some(i) => from <= i < to && s@[i as int] == c && (forall|j: int|
                from <= j < i ==> s@[j] != c),
            None => forall|j: int| from <= j < to ==> s@[j] != c,
        },
{
    let mut i: usize = from;
    while i < to
        invariant
            from <= i <= to <= s@.len(),
            forall|j: int| from <= j < i ==> s@[j] != c,
        decreases to - i,
    {
        if s.get_char(i) == c {
            return Some(i);
        }
        i = i + 1;
    }
    None
}

/// Character-wise string equality.
pub fn str_eq(a: &str, b: &str) -> (r: bool)
    ensures
        r == (a@ == b@),
{
    let n = a.unicode_len();
    let m = b.unicode_len();
    if n != m {
        return false;
    }
    let mut i: usize = 0;
    while i < n
        invariant
            i <= n,
            n == a@.len(),
            n == b@.len(),
            forall|j: int| 0 <= j < i ==> a@[j] == b@[j],
        decreases n - i,
    {
        if a.get_char(i) != b.get_char(i) {
            return false;
        }
        i = i + 1;
    }
    proof {
        assert(a@ =~= b@);
    }
    true
}

/// Whether `suf` is a suffix of `s`.
pub open spec fn has_suffix(s: Seq<char>, suf: Seq<char>) -> bool {
    s.len() >= suf.len() && s.subrange(s.len() - suf.len(), s.len() as int) == suf
}

/// Whether `s` ends with `suffix`.
pub fn ends_with(s: &str, suffix: &str) -> (r: bool)
    ensures
        r == has_suffix(s@, suffix@),
{
    let n = s.unicode_len();
    let m = suffix.unicode_len();
    if m > n {
        return false;
    }
    let mut i: usize = 0;
    while i < m
        invariant
            i <= m <= n,
            n == s@.len(),
            m == suffix@.len(),
            forall|j: int| 0 <= j < i ==> s@[n - m + j] == suffix@[j],
        decreases m - i,
    {
        if s.get_char(n - m + i) != suffix.get_char(i) {
            proof {
                assert(s@.subrange(n - m, n as int)[i as int] == s@[n - m + i]);
            }
            return false;
        }
        i = i + 1;
    }
    proof {
        assert(s@.subrange(n - m, n as int) =~= suffix@);
    }
    true
}

/// `s` with one trailing occurrence of `suf` removed, when present.
pub open spec fn strip_suffix_spec(s: Seq<char>, suf: Seq<char>) -> Seq<char> {
    if has_suffix(s, suf) {
        s.take(s.len() - suf.len())
    } else {
        s
    }
}

/// Removes one trailing occurrence of `suffix`, when present.
pub fn strip_suffix(s: &str, suffix: &str) -> (r: String)
    ensures
        r@ == strip_suffix_spec(s@, suffix@),
{
    let n = s.unicode_len();
    let m = suffix.unicode_len();
    if ends_with(s, suffix) {
        String::from_str(s.substring_char(0, n - m))
    } else {
        String::from_str(s)
    }
}

/// `s` without leading and trailing whitespace.
pub open spec fn trim_spec(s: Seq<char>) -> Seq<char>
    decreases s.len(),
{
    if s.len() > 0 && is_space_char(s[0]) {
        trim_spec(s.skip(1))
    } else if s.len() > 0 && is_space_char(s.last()) {
        trim_spec(s.take(s.len() - 1))
    } else {
        s
    }
}

proof fn lemma_trim_subrange(s: Seq<char>, a: int, b: int)
    requires
        0 <= a <= b <= s.len(),
        forall|j: int| 0 <= j < a ==> is_space_char(s[j]),
        forall|j: int| b <= j < s.len() ==> is_space_char(s[j]),
        a < b ==> !is_space_char(s[a]),
        a < b ==> !is_space_char(s[b - 1]),
        a == b ==> b == s.len(),
    ensures
        trim_spec(s) == s.subrange(a, b),
    decreases s.len(),
{
    if s.len() == 0 {
        assert(s.subrange(a, b) =~= s);
    } else if is_space_char(s[0]) {
        if a >= 1 {
            lemma_trim_subrange(s.skip(1), a - 1, b - 1);
            assert(s.skip(1).subrange(a - 1, b - 1) =~= s.subrange(a, b));
        } else {
            // a == 0, so a == b == s.len() is impossible unless everything is
            // whitespace; then a == b and b == s.len(), forcing s.len() == 0
            // unless a == b == s.len() with a == 0 meaning s.len() == 0.
            assert(a == b && b == s.len());
            assert(s.len() == 0);
        }
    } else if is_space_char(s.last()) {
        assert(a < b);
        assert(b < s.len());
        lemma_trim_subrange(s.take(s.len() - 1), a, b);
        assert(s.take(s.len() - 1).subrange(a, b) =~= s.subrange(a, b));
    } else {
        assert(a == 0);
        assert(b == s.len());
        assert(s.subrange(a, b) =~= s);
    }
}

/// Removes leading and trailing whitespace.
pub fn trim(s: &str) -> (r: String)
    ensures
        r@ == trim_spec(s@),
{
    let n = s.unicode_len();
    let mut a: usize = 0;
    let mut stop_front: bool = false;
    while !stop_front && a < n
        invariant
            a <= n,
            n == s@.len(),
            forall|j: int| 0 <= j < a ==> is_space_char(s@[j]),
            stop_front ==> a < n && !is_space_char(s@[a as int]),
        decreases n - a + (if stop_front { 0int } else { 1int }),
    {
        if is_space(s.get_char(a)) {
            a = a + 1;
        } else {
            stop_front = true;
        }
    }
    let mut b: usize = n;
    let mut stop_back: bool = false;
    while !stop_back && b > a
        invariant
            a <= b <= n,
            n == s@.len(),
            forall|j: int| b <= j < n ==> is_space_char(s@[j]),
            stop_back ==> a < b && !is_space_char(s@[b - 1]),
        decreases b + (if stop_back { 0int } else { 1int }),
    {
        if is_space(s.get_char(b - 1)) {
            b = b - 1;
        } else {
            stop_back = true;
        }
    }
    proof {
        lemma_trim_subrange(s@, a as int, b as int);
    }
    String::from_str(s.substring_char(a, b))
}

/// Executable test for the whitespace set of `is_space_char`.
pub fn is_space(c: char) -> (r: bool)
    ensures
        r == is_space_char(c),
{
    c == ' ' || c == '\t' || c == '\r' || c == '\n'
}

/// Drops one trailing line-feed character, then one trailing carriage return:
/// the normalization applied to every interactively read line.
pub open spec fn clean_spec(s: Seq<char>) -> Seq<char> {
    let t = if s.len() > 0 && s.last() == '\n' {
        s.drop_last()
    } else {
        s
    };
    if t.len() > 0 && t.last() == '\r' {
        t.drop_last()
    } else {
        t
    }
}

/// Strips a trailing newline (and a carriage return before it) in place.
pub fn clean_input(s: &mut String)
    ensures
        final(s)@ == clean_spec(old(s)@),
{
    let n = s.as_str().unicode_len();
    if n > 0 && s.as_str().get_char(n - 1) == '\n' {
        *s = String::from_str(s.as_str().substring_char(0, n - 1));
        proof {
            assert(s@ =~= old(s)@.drop_last());
        }
    }
    let m = s.as_str().unicode_len();
    if m > 0 && s.as_str().get_char(m - 1) == '\r' {
        *s = String::from_str(s.as_str().substring_char(0, m - 1));
    }
    proof {
        let t = if old(s)@.len() > 0 && old(s)@.last() == '\n' {
            old(s)@.drop_last()
        } else {
            old(s)@
        };
        if t.len() > 0 && t.last() == '\r' {
            assert(s@ =~= t.drop_last());
        } else {
            assert(s@ =~= t);
        }
    }
}

/// A delete confirmation proceeds unless the reply starts with `N` or `n`.
pub fn confirmation_proceeds(reply: &str) -> (r: bool)
    ensures
        r == !(reply@.len() > 0 && (reply@[0] == 'N' || reply@[0] == 'n')),
{
    if reply.unicode_len() > 0 {
        let c = reply.get_char(0);
        !(c == 'N' || c == 'n')
    } else {
        true
    }
}

} // verus!
