use vstd::prelude::*;
use vstd::string::*;

verus! {

/// Appends one character to a string.
/// Relies on std's String::push: the character is appended at the end.
#[verifier::external_body]
pub(crate) fn push_char(s: &mut String, c: char)
    ensures
        final(s)@ == old(s)@.push(c),
{
    s.push(c);
}

/// Character-for-character equality of two string slices.
pub fn str_eq(a: &str, b: &str) -> (r: bool)
    ensures
        r == (a@ == b@),
{
    let n = a.unicode_len();
    let m = b.unicode_len();
    if n != m {
        return false;
    }
    let mut i: usize = 0;
    while i < n
        invariant
            n == a@.len(),
            n == b@.len(),
            i <= n,
            forall|j: int| 0 <= j < i ==> a@[j] == b@[j],
        decreases n - i,
    {
        if a.get_char(i) != b.get_char(i) {
            return false;
        }
        i = i + 1;
    }
    proof {
        assert(a@ =~= b@);
    }
    true
}

/// The character code after ASCII lower-casing: upper-case ASCII letters
/// map to their lower-case counterpart, every other character is itself.
pub open spec fn lower_code(c: char) -> int {
    if 'A' <= c && c <= 'Z' {
        c as int + 32
    } else {
        c as int
    }
}

/// ASCII-case-insensitive character equality.
pub open spec fn char_eq_ci(a: char, b: char) -> bool {
    lower_code(a) == lower_code(b)
}

/// The needle occurs in the haystack at position `i`, compared
/// ASCII-case-insensitively.
pub open spec fn matches_ci_at(hay: Seq<char>, i: int, needle: Seq<char>) -> bool {
    &&& 0 <= i
    &&& i + needle.len() <= hay.len()
    &&& forall|j: int| 0 <= j < needle.len() ==> char_eq_ci(hay[i + j], needle[j])
}

/// The needle occurs somewhere in the haystack, compared
/// ASCII-case-insensitively.
pub open spec fn contains_ci(hay: Seq<char>, needle: Seq<char>) -> bool {
    exists|i: int| matches_ci_at(hay, i, needle)
}

fn char_eq_ci_exec(a: char, b: char) -> (r: bool)
    ensures
        r == char_eq_ci(a, b),
{
    let ac = a as u32;
    let bc = b as u32;
    let al = if a >= 'A' && a <= 'Z' { ac + 32 } else { ac };
    let bl = if b >= 'A' && b <= 'Z' { bc + 32 } else { bc };
    al == bl
}

/// Whether the needle occurs in the haystack, compared
/// ASCII-case-insensitively.
pub fn str_contains_ci(hay: &str, needle: &str) -> (r: bool)
    ensures
        r == contains_ci(hay@, needle@),
{
    let n = hay.unicode_len();
    let m = needle.unicode_len();
    if m > n {
        return false;
    }
    let mut i: usize = 0;
    while i <= n - m
        invariant
            n == hay@.len(),
            m == needle@.len(),
            m <= n,
            i <= n - m + 1,
            forall|k: int| 0 <= k < i ==> !matches_ci_at(hay@, k, needle@),
        decreases n - m - i + 1,
    {
        let mut j: usize = 0;
        let mut all: bool = true;
        while j < m
            invariant
                n == hay@.len(),
                m == needle@.len(),
                i + m <= n,
                j <= m,
                all == forall|k: int| 0 <= k < j ==> char_eq_ci(hay@[i + k], needle@[k]),
            decreases m - j,
        {
            if !char_eq_ci_exec(hay.get_char(i + j), needle.get_char(j)) {
                all = false;
            }
            j = j + 1;
        }
        if all {
            assert(matches_ci_at(hay@, i as int, needle@));
            return true;
        }
        i = i + 1;
    }
    false
}

/// The sequence `p` is a prefix of `s`.
pub open spec fn has_prefix(s: Seq<char>, p: Seq<char>) -> bool {
    p.len() <= s.len() && s.subrange(0, p.len() as int) == p
}

/// The sequence `p` is a suffix of `s`.
pub open spec fn has_suffix(s: Seq<char>, p: Seq<char>) -> bool {
    p.len() <= s.len() && s.subrange(s.len() - p.len(), s.len() as int) == p
}

/// Whether `p` is a prefix of `s`, character for character.
pub fn str_has_prefix(s: &str, p: &str) -> (r: bool)
    ensures
        r == has_prefix(s@, p@),
{
    let n = s.unicode_len();
    let m = p.unicode_len();
    if m > n {
        return false;
    }
    let mut i: usize = 0;
    while i < m
        invariant
            n == s@.len(),
            m == p@.len(),
            m <= n,
            i <= m,
            forall|j: int| 0 <= j < i ==> s@[j] == p@[j],
        decreases m - i,
    {
        if s.get_char(i) != p.get_char(i) {
            assert(s@.subrange(0, m as int)[i as int] != p@[i as int]);
            return false;
        }
        i = i + 1;
    }
    proof {
        assert(s@.subrange(0, m as int) =~= p@);
    }
    true
}

/// Whether `p` is a suffix of `s`, character for character.
pub fn str_has_suffix(s: &str, p: &str) -> (r: bool)
    ensures
        r == has_suffix(s@, p@),
{
    let n = s.unicode_len();
    let m = p.unicode_len();
    if m > n {
        return false;
    }
    let off = n - m;
    let mut i: usize = 0;
    while i < m
        invariant
            n == s@.len(),
            m == p@.len(),
            m <= n,
            off == n - m,
            i <= m,
            forall|j: int| 0 <= j < i ==> s@[off + j] == p@[j],
        decreases m - i,
    {
        if s.get_char(off + i) != p.get_char(i) {
            assert(s@.subrange(off as int, n as int)[i as int] != p@[i as int]);
            return false;
        }
        i = i + 1;
    }
    proof {
        assert(s@.subrange(off as int, n as int) =~= p@);
    }
    true
}

} // verus!
