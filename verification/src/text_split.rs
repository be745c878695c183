use vstd::prelude::*;
use crate::trailer::index_of_from;

verus! {

/// Whether `s` begins with `p`.
pub open spec fn has_prefix(s: Seq<char>, p: Seq<char>) -> bool {
    p.len() <= s.len() && s.take(p.len() as int) == p
}

/// `s` with every leading repetition of `p` removed (`str::trim_start_matches`).
pub open spec fn strip_all_prefix(s: Seq<char>, p: Seq<char>) -> Seq<char>
    decreases s.len(),
{
    if p.len() > 0 && has_prefix(s, p) {
        strip_all_prefix(s.skip(p.len() as int), p)
    } else {
        s
    }
}

/// The pieces of `s` between the occurrences of `c` (`str::split` on a char):
/// there is always one piece more than there are occurrences.
pub open spec fn split_on(s: Seq<char>, c: char) -> Seq<Seq<char>>
    decreases s.len(),
{
    match index_of_from(s, c, 0) {
        Some(i) => if 0 <= i < s.len() {
            seq![s.take(i)] + split_on(s.skip(i + 1), c)
        } else {
            seq![s]
        },
        None => seq![s],
    }
}

/// Splitting always gives at least one piece.
pub proof fn lemma_split_on_nonempty(s: Seq<char>, c: char)
    ensures
        split_on(s, c).len() >= 1,
    decreases s.len(),
{
    if let Some(i) = index_of_from(s, c, 0) {
        if 0 <= i < s.len() {
            lemma_split_on_nonempty(s.skip(i + 1), c);
        }
    }
}

/// Whether the characters of `s` from `start` on begin with `p`.
fn prefix_at(s: &str, n: usize, start: usize, p: &str, m: usize) -> (r: bool)
    requires
        n == s@.len(),
        m == p@.len(),
        start <= n,
    ensures
        r == has_prefix(s@.skip(start as int), p@),
{
    if n - start < m {
        return false;
    }
    let mut k: usize = 0;
    while k < m
        invariant
            n == s@.len(),
            m == p@.len(),
            start + m <= n,
            k <= m,
            forall|j: int| 0 <= j < k ==> s@[start + j] == p@[j],
        decreases m - k,
    {
        if s.get_char(start + k) != p.get_char(k) {
            assert(s@.skip(start as int).take(m as int)[k as int] == s@[start + k]);
            return false;
        }
        k = k + 1;
    }
    assert(s@.skip(start as int).take(m as int) =~= p@);
    true
}

/// Whether `s` begins with `p` (`str::starts_with`).
pub fn starts_with(s: &str, p: &str) -> (r: bool)
    ensures
        r == has_prefix(s@, p@),
{
    let n = s.unicode_len();
    let m = p.unicode_len();
    assert(s@.skip(0) =~= s@);
    prefix_at(s, n, 0, p, m)
}

/// `s` with every leading repetition of `p` removed.
pub fn trim_start_matches<'a>(s: &'a str, p: &str) -> (r: &'a str)
    ensures
        r@ == strip_all_prefix(s@, p@),
{
    let n = s.unicode_len();
    let m = p.unicode_len();
    let mut start: usize = 0;
    assert(s@.skip(0) =~= s@);
    if m == 0 {
        return s.substring_char(0, n);
    }
    while start < n && prefix_at(s, n, start, p, m)
        invariant
            n == s@.len(),
            m == p@.len(),
            m > 0,
            start <= n,
            strip_all_prefix(s@, p@) == strip_all_prefix(s@.skip(start as int), p@),
        decreases n - start,
    {
        assert(s@.skip(start as int).skip(m as int) =~= s@.skip(start + m));
        start = start + m;
    }
    if start < n {
        assert(!has_prefix(s@.skip(start as int), p@));
    } else {
        assert(s@.skip(start as int).len() == 0);
    }
    let r = s.substring_char(start, n);
    assert(r@ =~= s@.skip(start as int));
    r
}

proof fn lemma_index_of_from_bounds(s: Seq<char>, c: char, k: int)
    requires
        k >= 0,
    ensures
        index_of_from(s, c, k) matches Some(j) ==> k <= j < s.len() && s[j] == c && forall|l: int|
            k <= l < j ==> s[l] != c,
        index_of_from(s, c, k) is None ==> forall|j: int| k <= j < s.len() ==> s[j] != c,
    decreases s.len() - k,
{
    if k < s.len() && s[k] != c {
        lemma_index_of_from_bounds(s, c, k + 1);
    }
}

/// The pieces of `s` between the occurrences of `c`.
pub fn split_char<'a>(s: &'a str, c: char) -> (r: Vec<&'a str>)
    ensures
        r@.map_values(|x: &str| x@) == split_on(s@, c),
{
    let n = s.unicode_len();
    let mut out: Vec<&'a str> = Vec::new();
    let mut start: usize = 0;
    let mut k: usize = 0;
    assert(s@.skip(0) =~= s@);
    while k < n
        invariant
            n == s@.len(),
            start <= k <= n,
            forall|j: int| start <= j < k ==> s@[j] != c,
            out@.map_values(|x: &str| x@) + split_on(s@.skip(start as int), c) == split_on(s@, c),
        decreases n - k,
    {
        if s.get_char(k) == c {
            let piece = s.substring_char(start, k);
            proof {
                let rest = s@.skip(start as int);
                lemma_index_of_from_bounds(rest, c, 0);
                assert(rest[k - start] == c);
                assert forall|l: int| 0 <= l < k - start implies rest[l] != c by {
                    assert(rest[l] == s@[start + l]);
                }
                if let Some(j) = index_of_from(rest, c, 0) {
                    if j < k - start {
                        assert(rest[j] != c);
                    }
                    if j > k - start {
                        assert(rest[k - start] != c);
                    }
                }
                assert(index_of_from(rest, c, 0) == Some((k - start) as int));
                assert(rest.take(k - start) =~= piece@);
                assert(rest.skip(k - start + 1) =~= s@.skip(k + 1));
            }
            let ghost before = out@.map_values(|x: &str| x@);
            out.push(piece);
            assert(out@.map_values(|x: &str| x@) =~= before.push(piece@));
            assert(out@.map_values(|x: &str| x@) + split_on(s@.skip(k + 1), c) =~= before + (seq![piece@]
                + split_on(s@.skip(k + 1), c)));
            start = k + 1;
        }
        k = k + 1;
    }
    let last = s.substring_char(start, n);
    proof {
        let rest = s@.skip(start as int);
        lemma_index_of_from_bounds(rest, c, 0);
        assert forall|l: int| 0 <= l < rest.len() implies rest[l] != c by {
            assert(rest[l] == s@[start + l]);
        }
        if let Some(j) = index_of_from(rest, c, 0) {
            assert(rest[j] != c);
        }
        assert(last@ =~= rest);
    }
    let ghost before = out@.map_values(|x: &str| x@);
    out.push(last);
    assert(out@.map_values(|x: &str| x@) =~= before + seq![last@]);
    out
}

} // verus!
