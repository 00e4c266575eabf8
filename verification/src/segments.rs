//! Splitting topic strings into their `::`-separated segments.
//!
//! A topic such as `"registry::service::registered"` is read as the sequence
//! of segments `["registry", "service", "registered"]`. Separators are found
//! from left to right without overlap, so `":::"` splits into `["", ":"]`, and
//! every string, the empty one included, has at least one segment.

use vstd::prelude::*;

verus! {

/// The two-character separator `::` starts at position `i` of `s`.
pub open spec fn is_sep_at(s: Seq<char>, i: int) -> bool {
    0 <= i && i + 1 < s.len() && s[i] == ':' && s[i + 1] == ':'
}

/// `s` holds the separator `::` somewhere.
pub open spec fn has_separator(s: Seq<char>) -> bool {
    exists|i: int| #[trigger] is_sep_at(s, i)
}

/// The segments of `s`, reading on from position `i`, where the current
/// segment began at `start`.
pub open spec fn split_from(s: Seq<char>, start: int, i: int) -> Seq<Seq<char>>
    decreases s.len() - i,
{
    if i + 1 >= s.len() {
        seq![s.subrange(start, s.len() as int)]
    } else if s[i] == ':' && s[i + 1] == ':' {
        seq![s.subrange(start, i)] + split_from(s, i + 2, i + 2)
    } else {
        split_from(s, start, i + 1)
    }
}

/// The `::`-separated segments of `s`, left to right.
pub open spec fn segments(s: Seq<char>) -> Seq<Seq<char>> {
    split_from(s, 0, 0)
}

/// The segments written out again, with `::` between neighbours.
pub open spec fn join_segments(segs: Seq<Seq<char>>) -> Seq<char>
    decreases segs.len(),
{
    if segs.len() == 0 {
        Seq::empty()
    } else if segs.len() == 1 {
        segs[0]
    } else {
        segs[0] + seq![':', ':'] + join_segments(segs.drop_first())
    }
}

proof fn lemma_split_from_nonempty(s: Seq<char>, start: int, i: int)
    ensures
        split_from(s, start, i).len() >= 1,
    decreases s.len() - i,
{
    if i + 1 >= s.len() {
    } else if s[i] == ':' && s[i + 1] == ':' {
        lemma_split_from_nonempty(s, i + 2, i + 2);
    } else {
        lemma_split_from_nonempty(s, start, i + 1);
    }
}

proof fn lemma_join_split_from(s: Seq<char>, start: int, i: int)
    requires
        0 <= start <= i,
        i <= s.len(),
    ensures
        join_segments(split_from(s, start, i)) == s.subrange(start, s.len() as int),
    decreases s.len() - i,
{
    if i + 1 >= s.len() {
    } else if s[i] == ':' && s[i + 1] == ':' {
        let rest = split_from(s, i + 2, i + 2);
        lemma_split_from_nonempty(s, i + 2, i + 2);
        lemma_join_split_from(s, i + 2, i + 2);
        let all = seq![s.subrange(start, i)] + rest;
        assert(all.drop_first() =~= rest);
        assert(s.subrange(start, s.len() as int) =~= s.subrange(start, i) + seq![':', ':']
            + s.subrange(i + 2, s.len() as int));
    } else {
        lemma_join_split_from(s, start, i + 1);
    }
}

proof fn lemma_split_from_single(s: Seq<char>, start: int, i: int)
    requires
        0 <= i,
    ensures
        split_from(s, start, i).len() == 1 <==> (forall|j: int| i <= j ==> !#[trigger] is_sep_at(s, j)),
    decreases s.len() - i,
{
    if i + 1 >= s.len() {
    } else if s[i] == ':' && s[i + 1] == ':' {
        lemma_split_from_nonempty(s, i + 2, i + 2);
        assert(is_sep_at(s, i));
    } else {
        lemma_split_from_single(s, start, i + 1);
        assert(!is_sep_at(s, i));
        assert((forall|j: int| i + 1 <= j ==> !#[trigger] is_sep_at(s, j)) ==> (forall|j: int|
            i <= j ==> !#[trigger] is_sep_at(s, j)));
    }
}

/// Every string has at least one segment.
pub proof fn lemma_segments_nonempty(s: Seq<char>)
    ensures
        segments(s).len() >= 1,
{
    lemma_split_from_nonempty(s, 0, 0);
}

/// Splitting loses nothing: the segments joined with `::` give back the string.
pub proof fn lemma_join_segments(s: Seq<char>)
    ensures
        join_segments(segments(s)) == s,
{
    lemma_join_split_from(s, 0, 0);
    assert(s.subrange(0, s.len() as int) =~= s);
}

/// Two strings with the same segments are the same string.
pub proof fn lemma_segments_injective(a: Seq<char>, b: Seq<char>)
    requires
        segments(a) == segments(b),
    ensures
        a == b,
{
    lemma_join_segments(a);
    lemma_join_segments(b);
}

/// A string is a single segment exactly when it holds no `::`.
pub proof fn lemma_single_segment(s: Seq<char>)
    ensures
        segments(s).len() == 1 <==> !has_separator(s),
{
    lemma_split_from_single(s, 0, 0);
    if has_separator(s) {
        let j = choose|j: int| is_sep_at(s, j);
        assert(0 <= j);
    }
}

/// The character sequences held by a list of vectors.
pub open spec fn views(v: Seq<Vec<char>>) -> Seq<Seq<char>> {
    v.map_values(|x: Vec<char>| x@)
}

/// Collects the characters of `s` in order.
pub(crate) fn chars_of(s: &str) -> (v: Vec<char>)
    ensures
        v@ == s@,
{
    broadcast use vstd::string::axiom_spec_iter;

    let mut v: Vec<char> = Vec::new();
    for c in it: s.chars()
        invariant
            v@ == it.seq().take(it.index()),
    {
        v.push(c);
    }
    v
}

/// Copies the characters `s[lo..hi]` into a vector of their own.
fn copy_range(s: &Vec<char>, lo: usize, hi: usize) -> (v: Vec<char>)
    requires
        lo <= hi <= s.len(),
    ensures
        v@ == s@.subrange(lo as int, hi as int),
{
    let mut v: Vec<char> = Vec::new();
    let mut k = lo;
    while k < hi
        invariant
            lo <= k <= hi <= s.len(),
            v@ == s@.subrange(lo as int, k as int),
        decreases hi - k,
    {
        v.push(s[k]);
        k = k + 1;
        assert(v@ =~= s@.subrange(lo as int, k as int));
    }
    v
}

/// The segments of the character sequence `s`.
pub(crate) fn split_segments(s: &Vec<char>) -> (segs: Vec<Vec<char>>)
    ensures
        views(segs@) == segments(s@),
{
    let n = s.len();
    let mut segs: Vec<Vec<char>> = Vec::new();
    let mut start: usize = 0;
    let mut i: usize = 0;
    while n - i >= 2
        invariant
            n == s.len(),
            start <= i <= n,
            segments(s@) == views(segs@) + split_from(s@, start as int, i as int),
        decreases n - i,
    {
        if s[i] == ':' && s[i + 1] == ':' {
            let seg = copy_range(s, start, i);
            let ghost before = views(segs@);
            segs.push(seg);
            assert(views(segs@) =~= before.push(seg@));
            assert(before + split_from(s@, start as int, i as int) =~= views(segs@)
                + split_from(s@, (i + 2) as int, (i + 2) as int));
            start = i + 2;
            i = i + 2;
        } else {
            i = i + 1;
        }
    }
    let last = copy_range(s, start, n);
    let ghost before = views(segs@);
    segs.push(last);
    assert(views(segs@) =~= before.push(last@));
    assert(split_from(s@, start as int, i as int) == seq![s@.subrange(start as int, n as int)]);
    assert(views(segs@) =~= before + split_from(s@, start as int, i as int));
    segs
}

/// Whether two character vectors hold the same characters.
pub(crate) fn same_chars(a: &Vec<char>, b: &Vec<char>) -> (r: bool)
    ensures
        r == (a@ == b@),
{
    if a.len() != b.len() {
        return false;
    }
    let mut k: usize = 0;
    while k < a.len()
        invariant
            a.len() == b.len(),
            k <= a.len(),
            forall|j: int| 0 <= j < k ==> a@[j] == b@[j],
        decreases a.len() - k,
    {
        if a[k] != b[k] {
            return false;
        }
        k = k + 1;
    }
    assert(a@ =~= b@);
    true
}

} // verus!
