//! Verified text utilities: substring search, prefix and suffix tests,
//! equality, and replacement of every occurrence of a pattern.

use vstd::prelude::*;

verus! {

/// `n` occurs in `h` at position `i`.
pub open spec fn occurs_at(h: Seq<char>, n: Seq<char>, i: int) -> bool {
    0 <= i && i + n.len() <= h.len() && h.subrange(i, i + n.len()) == n
}

/// `n` occurs somewhere in `h`.
pub open spec fn contains_seq(h: Seq<char>, n: Seq<char>) -> bool {
    exists|i: int| occurs_at(h, n, i)
}

/// `i` is the first position at which `n` occurs in `h`.
pub open spec fn first_occ_at(h: Seq<char>, n: Seq<char>, i: int) -> bool {
    occurs_at(h, n, i) && forall|j: int| 0 <= j < i ==> !occurs_at(h, n, j)
}

/// `n` is a prefix of `h`.
pub open spec fn is_prefix(h: Seq<char>, n: Seq<char>) -> bool {
    n.len() <= h.len() && h.subrange(0, n.len() as int) == n
}

/// `n` is a suffix of `h`.
pub open spec fn is_suffix(h: Seq<char>, n: Seq<char>) -> bool {
    n.len() <= h.len() && h.subrange(h.len() - n.len(), h.len() as int) == n
}

/// A first occurrence is unique.
pub proof fn lemma_first_occ_unique(h: Seq<char>, n: Seq<char>, i: int, j: int)
    requires
        first_occ_at(h, n, i),
        first_occ_at(h, n, j),
    ensures
        i == j,
{
    if i < j {
        assert(!occurs_at(h, n, i));
    } else if j < i {
        assert(!occurs_at(h, n, j));
    }
}

/// An occurrence in the left part of a concatenation is an occurrence in
/// the whole.
pub proof fn lemma_occurs_concat_left(a: Seq<char>, b: Seq<char>, n: Seq<char>, i: int)
    requires
        occurs_at(a, n, i),
    ensures
        occurs_at(a + b, n, i),
{
    assert((a + b).subrange(i, i + n.len()) =~= a.subrange(i, i + n.len()));
}

/// An occurrence in the right part of a concatenation is an occurrence in
/// the whole, shifted by the left part's length.
pub proof fn lemma_occurs_concat_right(a: Seq<char>, b: Seq<char>, n: Seq<char>, i: int)
    requires
        occurs_at(b, n, i),
    ensures
        occurs_at(a + b, n, a.len() + i),
{
    assert((a + b).subrange(a.len() + i, a.len() + i + n.len()) =~= b.subrange(i, i + n.len()));
}

/// A text assembled around `n` holds an occurrence of `n` right after its
/// first part.
pub proof fn lemma_occurs_middle(a: Seq<char>, n: Seq<char>, b: Seq<char>)
    ensures
        occurs_at(a + n + b, n, a.len() as int),
{
    assert((a + n + b).subrange(a.len() as int, (a.len() + n.len()) as int) =~= n);
}

/// Whether `h` matches `n` starting at position `i`.
fn match_at(h: &str, n: &str, i: usize) -> (r: bool)
    requires
        i + n@.len() <= h@.len(),
    ensures
        r == occurs_at(h@, n@, i as int),
{
    let hl = h.unicode_len();
    let nl = n.unicode_len();
    let mut k: usize = 0;
    while k < nl
        invariant
            hl == h@.len(),
            nl == n@.len(),
            i + nl <= hl,
            k <= nl,
            forall|t: int| 0 <= t < k ==> h@[i + t] == n@[t],
        decreases nl - k,
    {
        if h.get_char(i + k) != n.get_char(k) {
            assert(h@.subrange(i as int, i + n@.len()) != n@) by {
                assert(h@.subrange(i as int, i + n@.len())[k as int] == h@[i + k]);
            }
            return false;
        }
        k += 1;
    }
    assert(h@.subrange(i as int, i + n@.len()) =~= n@);
    true
}

/// First occurrence of `n` in `h`, if any.
pub fn find_sub(h: &str, n: &str) -> (r: Option<usize>)
    ensures
        match r {
            Some(i) => first_occ_at(h@, n@, i as int),
            None => forall|j: int| !occurs_at(h@, n@, j),
        },
{
    let hl = h.unicode_len();
    let nl = n.unicode_len();
    if nl > hl {
        return None;
    }
    if nl == 0 {
        assert(h@.subrange(0, 0) =~= n@);
        return Some(0);
    }
    let mut i: usize = 0;
    while i <= hl - nl
        invariant
            hl == h@.len(),
            nl == n@.len(),
            0 < nl <= hl,
            i <= hl - nl + 1,
            forall|j: int| 0 <= j < i ==> !occurs_at(h@, n@, j),
        decreases hl - nl - i + 1,
    {
        if match_at(h, n, i) {
            return Some(i);
        }
        i += 1;
    }
    None
}

/// Whether `n` occurs in `h`.
pub fn contains_sub(h: &str, n: &str) -> (r: bool)
    ensures
        r == contains_seq(h@, n@),
{
    match find_sub(h, n) {
        Some(i) => {
            assert(occurs_at(h@, n@, i as int));
            true
        },
        None => false,
    }
}

/// Whether `n` is a prefix of `h`.
pub fn starts_with_str(h: &str, n: &str) -> (r: bool)
    ensures
        r == is_prefix(h@, n@),
{
    let hl = h.unicode_len();
    let nl = n.unicode_len();
    if nl > hl {
        return false;
    }
    match_at(h, n, 0)
}

/// Whether `n` is a suffix of `h`.
pub fn ends_with_str(h: &str, n: &str) -> (r: bool)
    ensures
        r == is_suffix(h@, n@),
{
    let hl = h.unicode_len();
    let nl = n.unicode_len();
    if nl > hl {
        return false;
    }
    match_at(h, n, hl - nl)
}

/// Whether two string slices hold the same text.
pub fn str_eq(a: &str, b: &str) -> (r: bool)
    ensures
        r == (a@ == b@),
{
    let al = a.unicode_len();
    let bl = b.unicode_len();
    if al != bl {
        return false;
    }
    if match_at(a, b, 0) {
        assert(a@.subrange(0, a@.len() as int) =~= a@);
        true
    } else {
        assert(a@.subrange(0, a@.len() as int) =~= a@);
        false
    }
}

/// `s` with every occurrence of `pat` replaced by `rep`, scanning left to
/// right and never rescanning replaced text.
pub open spec fn spec_replace(s: Seq<char>, pat: Seq<char>, rep: Seq<char>) -> Seq<char>
    decreases s.len(),
{
    if pat.len() == 0 {
        s
    } else if exists|i: int| first_occ_at(s, pat, i) {
        let i = choose|i: int| first_occ_at(s, pat, i);
        s.subrange(0, i) + rep + spec_replace(s.skip(i + pat.len()), pat, rep)
    } else {
        s
    }
}

/// Unfolding of `spec_replace` at a known first occurrence.
pub proof fn lemma_replace_step(s: Seq<char>, pat: Seq<char>, rep: Seq<char>, i: int)
    requires
        pat.len() > 0,
        first_occ_at(s, pat, i),
    ensures
        spec_replace(s, pat, rep) == s.subrange(0, i) + rep + spec_replace(
            s.skip(i + pat.len()),
            pat,
            rep,
        ),
{
    let j = choose|j: int| first_occ_at(s, pat, j);
    lemma_first_occ_unique(s, pat, i, j);
}

/// `spec_replace` leaves a text without the pattern unchanged.
pub proof fn lemma_replace_absent(s: Seq<char>, pat: Seq<char>, rep: Seq<char>)
    requires
        pat.len() > 0,
        forall|j: int| !occurs_at(s, pat, j),
    ensures
        spec_replace(s, pat, rep) == s,
{
    assert(forall|i: int| !first_occ_at(s, pat, i));
}

/// Replace every occurrence of `pat` in `s` by `rep`.
pub fn replace_all(s: &str, pat: &str, rep: &str) -> (r: String)
    requires
        pat@.len() > 0,
    ensures
        r@ == spec_replace(s@, pat@, rep@),
{
    let mut out = String::new();
    let mut rest: &str = s;
    let pl = pat.unicode_len();
    loop
        invariant
            pl == pat@.len(),
            pl > 0,
            spec_replace(s@, pat@, rep@) == out@ + spec_replace(rest@, pat@, rep@),
        decreases rest@.len(),
    {
        match find_sub(rest, pat) {
            Some(i) => {
                let rl = rest.unicode_len();
                let head = rest.substring_char(0, i);
                out.append(head);
                out.append(rep);
                let ghost prev = rest@;
                rest = rest.substring_char(i + pl, rl);
                proof {
                    lemma_replace_step(prev, pat@, rep@, i as int);
                    assert(prev.skip(i + pat@.len()) =~= rest@);
                }
            },
            None => {
                out.append(rest);
                proof {
                    lemma_replace_absent(rest@, pat@, rep@);
                }
                return out;
            },
        }
    }
}

} // verus!
