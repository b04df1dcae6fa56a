//! Character-level string operations used by the scanners: equality,
//! first/last occurrence of a character, prefix and substring tests, and
//! slash-normalized path joining.
use vstd::prelude::*;

verus! {

/// Index of the first occurrence of `c` in `s` at or after position `i`.
pub open spec fn spec_find_from(s: Seq<char>, c: char, i: int) -> Option<int>
    decreases s.len() - i,
{
    if i < 0 || i >= s.len() {
        None
    } else if s[i] == c {
        Some(i)
    } else {
        spec_find_from(s, c, i + 1)
    }
}

/// Index of the first occurrence of `c` in `s`.
pub open spec fn spec_find(s: Seq<char>, c: char) -> Option<int> {
    spec_find_from(s, c, 0)
}

/// Index of the last occurrence of `c` in `s`.
pub open spec fn spec_rfind(s: Seq<char>, c: char) -> Option<int>
    decreases s.len(),
{
    if s.len() == 0 {
        None
    } else if s[s.len() - 1] == c {
        Some(s.len() - 1)
    } else {
        spec_rfind(s.drop_last(), c)
    }
}

/// `p` is a prefix of `s`.
pub open spec fn spec_has_prefix(s: Seq<char>, p: Seq<char>) -> bool {
    p.len() <= s.len() && s.subrange(0, p.len() as int) == p
}

/// `sub` occurs somewhere in `s`.
pub open spec fn spec_contains(s: Seq<char>, sub: Seq<char>) -> bool {
    exists|i: int|
        0 <= i && i + sub.len() <= s.len() && #[trigger] s.subrange(i, i + sub.len() as int)
            == sub
}

/// `s` with every backslash turned into a forward slash.
pub open spec fn spec_normalize_slashes(s: Seq<char>) -> Seq<char> {
    Seq::new(s.len(), |i: int| if s[i] == '\\' { '/' } else { s[i] })
}

/// The manifest-relative `href` joined onto the directory of `opf_path`,
/// with backslashes normalized: the archive member path of the cover.
pub open spec fn spec_resolve_path(opf_path: Seq<char>, href: Seq<char>) -> Seq<char> {
    match spec_rfind(opf_path, '/') {
        Some(i) => spec_normalize_slashes(opf_path.subrange(0, i + 1) + href),
        None => spec_normalize_slashes(href),
    }
}

/// Character-for-character string equality.
pub fn str_eq(a: &str, b: &str) -> (r: bool)
    ensures
        r == (a@ == b@),
{
    let alen = a.unicode_len();
    let blen = b.unicode_len();
    if alen != blen {
        return false;
    }
    let mut i: usize = 0;
    while i < alen
        invariant
            alen == a@.len(),
            blen == b@.len(),
            alen == blen,
            i <= alen,
            forall|j: int| 0 <= j < i ==> a@[j] == b@[j],
        decreases alen - i,
    {
        if a.get_char(i) != b.get_char(i) {
            return false;
        }
        i = i + 1;
    }
    proof {
        assert(a@ =~= b@);
    }
    true
}

/// First position of `c` in `s`, if any.
pub fn find_char(s: &str, c: char) -> (r: Option<usize>)
    ensures
        match spec_find(s@, c) {
            Some(k) => r matches Some(u) && u as int == k,
            None => r is None,
        },
{
    let len = s.unicode_len();
    let mut i: usize = 0;
    while i < len
        invariant
            len == s@.len(),
            i <= len,
            spec_find(s@, c) == spec_find_from(s@, c, i as int),
        decreases len - i,
    {
        if s.get_char(i) == c {
            return Some(i);
        }
        i = i + 1;
    }
    None
}

/// Last position of `c` in `s`, if any.
pub fn rfind_char(s: &str, c: char) -> (r: Option<usize>)
    ensures
        match spec_rfind(s@, c) {
            Some(k) => r matches Some(u) && u as int == k,
            None => r is None,
        },
{
    let len = s.unicode_len();
    let mut i: usize = len;
    proof {
        assert(s@.subrange(0, len as int) =~= s@);
    }
    while i > 0
        invariant
            len == s@.len(),
            i <= len,
            spec_rfind(s@, c) == spec_rfind(s@.subrange(0, i as int), c),
        decreases i,
    {
        let ghost pre = s@.subrange(0, i as int);
        proof {
            assert(pre.drop_last() =~= s@.subrange(0, i - 1));
            assert(pre[pre.len() - 1] == s@[i - 1]);
        }
        if s.get_char(i - 1) == c {
            return Some(i - 1);
        }
        i = i - 1;
    }
    proof {
        assert(s@.subrange(0, 0) =~= Seq::<char>::empty());
    }
    None
}

/// Whether `sub` stands in `s` starting at position `at`.
fn matches_at(s: &str, sub: &str, at: usize) -> (r: bool)
    requires
        at + sub@.len() <= s@.len(),
    ensures
        r == (s@.subrange(at as int, at + sub@.len()) == sub@),
{
    let n = s.unicode_len();
    let sublen = sub.unicode_len();
    let mut j: usize = 0;
    while j < sublen
        invariant
            n == s@.len(),
            sublen == sub@.len(),
            at + sublen <= s@.len(),
            j <= sublen,
            forall|k: int| 0 <= k < j ==> s@[at + k] == sub@[k],
        decreases sublen - j,
    {
        if s.get_char(at + j) != sub.get_char(j) {
            proof {
                assert(s@.subrange(at as int, at + sub@.len())[j as int] != sub@[j as int]);
            }
            return false;
        }
        j = j + 1;
    }
    proof {
        assert(s@.subrange(at as int, at + sub@.len()) =~= sub@);
    }
    true
}

/// Whether `p` is a prefix of `s`.
pub fn has_prefix(s: &str, p: &str) -> (r: bool)
    ensures
        r == spec_has_prefix(s@, p@),
{
    if p.unicode_len() > s.unicode_len() {
        return false;
    }
    matches_at(s, p, 0)
}

/// Whether `sub` occurs somewhere in `s`.
pub fn contains_sub(s: &str, sub: &str) -> (r: bool)
    ensures
        r == spec_contains(s@, sub@),
{
    let len = s.unicode_len();
    let sublen = sub.unicode_len();
    if sublen > len {
        return false;
    }
    if sublen == 0 {
        proof {
            assert(s@.subrange(0, 0 + sub@.len() as int) =~= sub@);
        }
        return true;
    }
    let mut i: usize = 0;
    while i <= len - sublen
        invariant
            len == s@.len(),
            sublen == sub@.len(),
            1 <= sublen <= len,
            i <= len - sublen + 1,
            forall|k: int|
                0 <= k < i ==> #[trigger] s@.subrange(k, k + sub@.len()) != sub@,
        decreases len - i,
    {
        if matches_at(s, sub, i) {
            return true;
        }
        i = i + 1;
    }
    false
}

/// A copy of `s` with every backslash turned into a forward slash.
pub fn normalize_slashes(s: &str) -> (r: String)
    ensures
        r@ == spec_normalize_slashes(s@),
{
    let len = s.unicode_len();
    let mut out = String::new();
    let mut i: usize = 0;
    while i < len
        invariant
            len == s@.len(),
            i <= len,
            out@ =~= spec_normalize_slashes(s@).subrange(0, i as int),
        decreases len - i,
    {
        if s.get_char(i) == '\\' {
            out.append("/");
            proof {
                reveal_strlit("/");
            }
        } else {
            let piece = s.substring_char(i, i + 1);
            out.append(piece);
        }
        proof {
            assert(out@ =~= spec_normalize_slashes(s@).subrange(0, i + 1));
        }
        i = i + 1;
    }
    proof {
        assert(spec_normalize_slashes(s@).subrange(0, len as int) =~= spec_normalize_slashes(
            s@,
        ));
    }
    out
}

/// A first occurrence found by `spec_find_from` is a position of `c` inside `s`.
pub proof fn lemma_find_bounds(s: Seq<char>, c: char, i: int)
    ensures
        match spec_find_from(s, c, i) {
            Some(k) => i <= k < s.len() && s[k] == c,
            None => true,
        },
    decreases s.len() - i,
{
    if i < 0 || i >= s.len() {
    } else if s[i] == c {
    } else {
        lemma_find_bounds(s, c, i + 1);
    }
}

/// A last occurrence found by `spec_rfind` is a position of `c` inside `s`.
pub proof fn lemma_rfind_bounds(s: Seq<char>, c: char)
    ensures
        match spec_rfind(s, c) {
            Some(k) => 0 <= k < s.len() && s[k] == c,
            None => true,
        },
    decreases s.len(),
{
    if s.len() == 0 {
    } else if s[s.len() - 1] == c {
    } else {
        lemma_rfind_bounds(s.drop_last(), c);
    }
}

/// Joins the cover `href` onto the directory of the package document and
/// normalizes backslashes to the slash-separated archive convention.
pub fn resolve_cover_path(opf_path: &str, href: &str) -> (r: String)
    ensures
        r@ == spec_resolve_path(opf_path@, href@),
{
    // `n` bounds the character count by usize, so that `i + 1` below cannot
    // overflow: the last slash sits at `i < n`.
    let n = opf_path.unicode_len();
    match rfind_char(opf_path, '/') {
        Some(i) => {
            proof {
                lemma_rfind_bounds(opf_path@, '/');
            }
            let mut joined = opf_path.substring_char(0, i + 1).to_owned();
            joined.append(href);
            normalize_slashes(joined.as_str())
        },
        None => normalize_slashes(href),
    }
}

} // verus!

