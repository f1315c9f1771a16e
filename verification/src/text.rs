//! Character-level helpers: Unicode white space, trimming, substring search.

use vstd::prelude::*;

verus! {

/// The code points that carry Unicode's `White_Space` property.
pub open spec fn is_white_space(c: char) -> bool {
    let n = c as u32;
    ||| 0x09 <= n <= 0x0D
    ||| n == 0x20
    ||| n == 0x85
    ||| n == 0xA0
    ||| n == 0x1680
    ||| 0x2000 <= n <= 0x200A
    ||| n == 0x2028
    ||| n == 0x2029
    ||| n == 0x202F
    ||| n == 0x205F
    ||| n == 0x3000
}

/// `s` without its longest prefix of white space.
pub open spec fn drop_leading(s: Seq<char>) -> Seq<char>
    decreases s.len(),
{
    if s.len() > 0 && is_white_space(s.first()) {
        drop_leading(s.drop_first())
    } else {
        s
    }
}

/// `s` without its longest suffix of white space.
pub open spec fn drop_trailing(s: Seq<char>) -> Seq<char>
    decreases s.len(),
{
    if s.len() > 0 && is_white_space(s.last()) {
        drop_trailing(s.drop_last())
    } else {
        s
    }
}

/// `s` with leading and trailing white space removed.
pub open spec fn trimmed(s: Seq<char>) -> Seq<char> {
    drop_trailing(drop_leading(s))
}

/// Every character of `s` is white space.
pub open spec fn all_white_space(s: Seq<char>) -> bool {
    forall|i: int| 0 <= i < s.len() ==> is_white_space(#[trigger] s[i])
}

/// `s` neither starts nor ends with white space (the empty text qualifies).
pub open spec fn is_trim(s: Seq<char>) -> bool {
    s.len() > 0 ==> !is_white_space(s.first()) && !is_white_space(s.last())
}

/// `pat` stands in `s` at position `i`.
pub open spec fn occurs_at(s: Seq<char>, pat: Seq<char>, i: int) -> bool {
    0 <= i && i + pat.len() <= s.len() && s.subrange(i, i + pat.len()) == pat
}

/// `i` is the position of the first occurrence of `pat` in `s`.
pub open spec fn is_first_occurrence(s: Seq<char>, pat: Seq<char>, i: int) -> bool {
    &&& occurs_at(s, pat, i)
    &&& forall|j: int| 0 <= j < i ==> !occurs_at(s, pat, j)
}

/// `pat` occurs somewhere in `s`.
pub open spec fn contains(s: Seq<char>, pat: Seq<char>) -> bool {
    exists|i: int| occurs_at(s, pat, i)
}

/// The position of the first occurrence of `pat` in `s`, if it occurs at all.
pub open spec fn first_index_of(s: Seq<char>, pat: Seq<char>) -> Option<int> {
    if contains(s, pat) {
        Some(choose|i: int| is_first_occurrence(s, pat, i))
    } else {
        None
    }
}

/// Dropping a white-space prefix `ws` in front of `rest` leaves what dropping
/// from `rest` leaves.
pub proof fn lemma_drop_leading_prefix(ws: Seq<char>, rest: Seq<char>)
    requires
        all_white_space(ws),
    ensures
        drop_leading(ws + rest) == drop_leading(rest),
    decreases ws.len(),
{
    if ws.len() == 0 {
        assert(ws + rest =~= rest);
    } else {
        let whole = ws + rest;
        assert(whole.first() == ws[0]);
        assert(whole.drop_first() =~= ws.drop_first() + rest);
        lemma_drop_leading_prefix(ws.drop_first(), rest);
    }
}

/// Dropping a white-space suffix `ws` behind `rest` leaves what dropping
/// from `rest` leaves.
pub proof fn lemma_drop_trailing_suffix(rest: Seq<char>, ws: Seq<char>)
    requires
        all_white_space(ws),
    ensures
        drop_trailing(rest + ws) == drop_trailing(rest),
    decreases ws.len(),
{
    if ws.len() == 0 {
        assert(rest + ws =~= rest);
    } else {
        let whole = rest + ws;
        assert(whole.last() == ws[ws.len() - 1]);
        assert(whole.drop_last() =~= rest + ws.drop_last());
        lemma_drop_trailing_suffix(rest, ws.drop_last());
    }
}

/// Text with white space around a core that neither starts nor ends with
/// white space trims to that core.
pub proof fn lemma_trimmed_padded(before: Seq<char>, core: Seq<char>, after: Seq<char>)
    requires
        all_white_space(before),
        all_white_space(after),
        is_trim(core),
    ensures
        trimmed(before + core + after) == core,
{
    assert(before + core + after =~= before + (core + after));
    lemma_drop_leading_prefix(before, core + after);
    if core.len() == 0 {
        assert(core + after =~= after);
        assert(after =~= after + Seq::<char>::empty());
        lemma_drop_leading_prefix(after, Seq::<char>::empty());
        assert(drop_leading(after) == Seq::<char>::empty());
    } else {
        assert((core + after).first() == core.first());
        assert(drop_leading(core + after) == core + after);
        lemma_drop_trailing_suffix(core, after);
    }
}

/// What is left after dropping trailing white space does not end with
/// white space, and starts as the text did unless nothing is left.
pub proof fn lemma_drop_trailing_ends(s: Seq<char>)
    ensures
        drop_trailing(s).len() <= s.len(),
        drop_trailing(s).len() > 0 ==> !is_white_space(drop_trailing(s).last())
            && drop_trailing(s).first() == s.first(),
    decreases s.len(),
{
    if s.len() > 0 && is_white_space(s.last()) {
        lemma_drop_trailing_ends(s.drop_last());
    }
}

/// What is left after dropping leading white space does not start with
/// white space.
pub proof fn lemma_drop_leading_starts(s: Seq<char>)
    ensures
        drop_leading(s).len() > 0 ==> !is_white_space(drop_leading(s).first()),
    decreases s.len(),
{
    if s.len() > 0 && is_white_space(s.first()) {
        lemma_drop_leading_starts(s.drop_first());
    }
}

/// Trimmed text neither starts nor ends with white space, and trimming it
/// again changes nothing.
pub proof fn lemma_trimmed_is_trim(s: Seq<char>)
    ensures
        is_trim(trimmed(s)),
        trimmed(trimmed(s)) == trimmed(s),
{
    lemma_drop_leading_starts(s);
    lemma_drop_trailing_ends(drop_leading(s));
    let t = trimmed(s);
    assert(Seq::<char>::empty() + t + Seq::<char>::empty() =~= t);
    lemma_trimmed_padded(Seq::<char>::empty(), t, Seq::<char>::empty());
}

/// The first occurrence is unique: a position that is one is the one that
/// `first_index_of` names.
pub proof fn lemma_first_index_of(s: Seq<char>, pat: Seq<char>, i: int)
    requires
        is_first_occurrence(s, pat, i),
    ensures
        first_index_of(s, pat) == Some(i),
{
    assert(occurs_at(s, pat, i));
    let c = choose|c: int| is_first_occurrence(s, pat, c);
    assert(is_first_occurrence(s, pat, c));
    if c < i {
        assert(!occurs_at(s, pat, c));
    }
    if i < c {
        assert(!occurs_at(s, pat, i));
    }
}

/// Where `pat` occurs in `s`, it has a first occurrence.
pub proof fn lemma_first_exists(s: Seq<char>, pat: Seq<char>, i: int)
    requires
        occurs_at(s, pat, i),
    ensures
        exists|f: int| is_first_occurrence(s, pat, f),
    decreases i,
{
    if exists|j: int| 0 <= j < i && occurs_at(s, pat, j) {
        let j = choose|j: int| 0 <= j < i && occurs_at(s, pat, j);
        lemma_first_exists(s, pat, j);
    } else {
        assert(is_first_occurrence(s, pat, i));
    }
}

/// Whether `c` is white space.
pub fn is_white_space_char(c: char) -> (r: bool)
    ensures
        r == is_white_space(c),
{
    let n: u32 = c as u32;
    (0x09 <= n && n <= 0x0D) || n == 0x20 || n == 0x85 || n == 0xA0 || n == 0x1680 || (0x2000 <= n
        && n <= 0x200A) || n == 0x2028 || n == 0x2029 || n == 0x202F || n == 0x205F || n == 0x3000
}

/// The characters of `s`, in order.
pub fn chars_of(s: &str) -> (v: Vec<char>)
    ensures
        v@ == s@,
{
    let mut v: Vec<char> = Vec::new();
    for c in it: s.chars()
        invariant
            v@ == it.seq().take(it.index()),
            it.seq() == s@,
    {
        v.push(c);
    }
    v
}

/// The part of `s` from `a` up to `b` is what trimming leaves, when
/// everything outside it is white space and its two ends are not.
pub proof fn lemma_trimmed_subrange(s: Seq<char>, a: int, b: int)
    requires
        0 <= a <= b <= s.len(),
        all_white_space(s.subrange(0, a)),
        all_white_space(s.subrange(b, s.len() as int)),
        is_trim(s.subrange(a, b)),
    ensures
        trimmed(s) == s.subrange(a, b),
{
    assert(s =~= s.subrange(0, a) + s.subrange(a, b) + s.subrange(b, s.len() as int));
    lemma_trimmed_padded(s.subrange(0, a), s.subrange(a, b), s.subrange(b, s.len() as int));
}

/// The bounds of what trimming leaves of `s`: it is `s` from the first
/// returned position up to the second.
pub fn trim_bounds(s: &Vec<char>) -> (r: (usize, usize))
    ensures
        r.0 <= r.1 <= s@.len(),
        trimmed(s@) == s@.subrange(r.0 as int, r.1 as int),
{
    let n: usize = s.len();
    let mut a: usize = 0;
    while a < n && is_white_space_char(s[a])
        invariant
            a <= n,
            n == s@.len(),
            forall|i: int| 0 <= i < a ==> is_white_space(#[trigger] s@[i]),
        decreases n - a,
    {
        a += 1;
    }
    let mut b: usize = n;
    while b > a && is_white_space_char(s[b - 1])
        invariant
            a <= b <= n,
            n == s@.len(),
            forall|i: int| b <= i < n ==> is_white_space(#[trigger] s@[i]),
        decreases b,
    {
        b -= 1;
    }
    proof {
        let head = s@.subrange(0, a as int);
        let tail = s@.subrange(b as int, n as int);
        assert forall|i: int| 0 <= i < head.len() implies is_white_space(#[trigger] head[i]) by {
            assert(head[i] == s@[i]);
        }
        assert forall|i: int| 0 <= i < tail.len() implies is_white_space(#[trigger] tail[i]) by {
            assert(tail[i] == s@[b + i]);
        }
        if a < b {
            assert(s@.subrange(a as int, b as int).first() == s@[a as int]);
            assert(s@.subrange(a as int, b as int).last() == s@[b - 1]);
        }
        lemma_trimmed_subrange(s@, a as int, b as int);
    }
    (a, b)
}

/// `s` with leading and trailing white space removed, as a new string.
pub fn trim(s: &str) -> (r: String)
    ensures
        r@ == trimmed(s@),
{
    let chars = chars_of(s);
    let (a, b) = trim_bounds(&chars);
    s.substring_char(a, b).to_owned()
}

/// Whether `pat` stands in `s` at position `i`.
pub fn matches_at(s: &Vec<char>, pat: &Vec<char>, i: usize) -> (r: bool)
    requires
        i + pat@.len() <= s@.len(),
    ensures
        r == occurs_at(s@, pat@, i as int),
{
    let n: usize = s.len();
    let m: usize = pat.len();
    let mut k: usize = 0;
    while k < m
        invariant
            k <= m,
            m == pat@.len(),
            n == s@.len(),
            i + m <= n,
            forall|j: int| 0 <= j < k ==> s@[i + j] == #[trigger] pat@[j],
        decreases m - k,
    {
        if s[i + k] != pat[k] {
            proof {
                assert(s@.subrange(i as int, i + m)[k as int] == s@[i + k]);
            }
            return false;
        }
        k += 1;
    }
    proof {
        assert(s@.subrange(i as int, i + m) =~= pat@);
    }
    true
}

/// The position of the first occurrence of `pat` in `s`.
pub fn find_first(s: &Vec<char>, pat: &Vec<char>) -> (r: Option<usize>)
    ensures
        match r {
            Some(i) => first_index_of(s@, pat@) == Some(i as int) && i + pat@.len() <= s@.len(),
            None => first_index_of(s@, pat@).is_none(),
        },
{
    let n: usize = s.len();
    let m: usize = pat.len();
    if m > n {
        return None;
    }
    let last: usize = n - m;
    let mut i: usize = 0;
    loop
        invariant
            i <= last,
            last == n - m,
            n == s@.len(),
            m == pat@.len(),
            forall|j: int| 0 <= j < i ==> !occurs_at(s@, pat@, j),
        decreases last - i,
    {
        if matches_at(s, pat, i) {
            proof {
                lemma_first_index_of(s@, pat@, i as int);
            }
            return Some(i);
        }
        if i == last {
            return None;
        }
        i += 1;
    }
}

} // verus!
