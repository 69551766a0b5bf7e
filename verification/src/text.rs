//! Searching and trimming of character sequences.

use vstd::prelude::*;
use vstd::string::*;

verus! {

/// `pat` occurs in `s` at index `i`.
pub open spec fn matches_at(s: Seq<char>, pat: Seq<char>, i: int) -> bool {
    &&& 0 <= i
    &&& i + pat.len() <= s.len()
    &&& s.subrange(i, i + pat.len()) == pat
}

/// `i` is the index of the first occurrence of `pat` in `s`.
pub open spec fn is_first_match(s: Seq<char>, pat: Seq<char>, i: int) -> bool {
    &&& matches_at(s, pat, i)
    &&& forall|j: int| 0 <= j < i ==> !matches_at(s, pat, j)
}

/// The index of the first occurrence of `pat` in `s`, if there is one.
pub open spec fn first_index_of(s: Seq<char>, pat: Seq<char>) -> Option<int> {
    if exists|i: int| is_first_match(s, pat, i) {
        Some(choose|i: int| is_first_match(s, pat, i))
    } else {
        None
    }
}

/// A first occurrence is the only one, so it is what `first_index_of` gives.
pub proof fn lemma_first_index_is(s: Seq<char>, pat: Seq<char>, i: int)
    requires
        is_first_match(s, pat, i),
    ensures
        first_index_of(s, pat) == Some(i),
{
    let k = choose|k: int| is_first_match(s, pat, k);
    assert(is_first_match(s, pat, k));
    if k < i {
        assert(!matches_at(s, pat, k));
    } else if i < k {
        assert(!matches_at(s, pat, i));
    }
}

/// Where `pat` occurs nowhere in `s`, `first_index_of` gives nothing.
pub proof fn lemma_first_index_none(s: Seq<char>, pat: Seq<char>)
    requires
        forall|j: int| 0 <= j ==> !matches_at(s, pat, j),
    ensures
        first_index_of(s, pat) is None,
{
    assert forall|i: int| !is_first_match(s, pat, i) by {
        if 0 <= i {
            assert(!matches_at(s, pat, i));
        }
    }
}

/// Where `pat` occurs in `s` at all, it has a first occurrence, no later
/// than any other.
pub proof fn lemma_match_has_first(s: Seq<char>, pat: Seq<char>, j: int)
    requires
        matches_at(s, pat, j),
    ensures
        first_index_of(s, pat) is Some,
        first_index_of(s, pat)->0 <= j,
    decreases j,
{
    if exists|k: int| 0 <= k < j && matches_at(s, pat, k) {
        let k = choose|k: int| 0 <= k < j && matches_at(s, pat, k);
        lemma_match_has_first(s, pat, k);
    } else {
        assert(is_first_match(s, pat, j));
        lemma_first_index_is(s, pat, j);
    }
}

/// The characters of a string, in order.
pub fn chars_of(s: &str) -> (v: Vec<char>)
    ensures
        v@ == s@,
{
    let mut v: Vec<char> = Vec::new();
    for c in it: s.chars()
        invariant
            v@ == it.seq().take(it.index() as int),
            it.seq() == s@,
    {
        v.push(c);
    }
    v
}

/// Whether `pat` occurs in `s` at index `i`.
pub fn occurs_at(s: &Vec<char>, pat: &Vec<char>, i: usize) -> (b: bool)
    ensures
        b == matches_at(s@, pat@, i as int),
{
    if pat.len() > s.len() || i > s.len() - pat.len() {
        return false;
    }
    let mut k: usize = 0;
    while k < pat.len()
        invariant
            k <= pat.len(),
            i + pat.len() <= s.len(),
            forall|j: int| 0 <= j < k ==> s@[i + j] == pat@[j],
        decreases pat.len() - k,
    {
        if s[i + k] != pat[k] {
            assert(s@.subrange(i as int, i + pat.len())[k as int] != pat@[k as int]);
            return false;
        }
        k += 1;
    }
    assert(s@.subrange(i as int, i + pat.len()) =~= pat@);
    true
}

/// The index of the first occurrence of `pat` in `s`.
pub fn find(s: &Vec<char>, pat: &Vec<char>) -> (r: Option<usize>)
    ensures
        r is Some <==> first_index_of(s@, pat@) is Some,
        r is Some ==> first_index_of(s@, pat@) == Some(r->0 as int),
        r is Some ==> r->0 + pat@.len() <= s@.len(),
{
    let mut i: usize = 0;
    while i <= s.len()
        invariant
            i <= s.len() + 1,
            forall|j: int| 0 <= j < i ==> !matches_at(s@, pat@, j),
        decreases s.len() + 1 - i,
    {
        if occurs_at(s, pat, i) {
            proof {
                lemma_first_index_is(s@, pat@, i as int);
            }
            return Some(i);
        }
        if i == s.len() {
            proof {
                lemma_first_index_none(s@, pat@);
            }
            return None;
        }
        i += 1;
    }
    proof {
        lemma_first_index_none(s@, pat@);
    }
    None
}

/// `s` begins with `pat`.
pub open spec fn starts_with(s: Seq<char>, pat: Seq<char>) -> bool {
    matches_at(s, pat, 0)
}

/// White space as Unicode defines it (the property `White_Space`).
pub open spec fn is_space(c: char) -> bool {
    let n = c as u32;
    ||| 0x09 <= n <= 0x0D
    ||| n == 0x20
    ||| n == 0x85
    ||| n == 0xA0
    ||| n == 0x1680
    ||| 0x2000 <= n <= 0x200A
    ||| n == 0x2028
    ||| n == 0x2029
    ||| n == 0x202F
    ||| n == 0x205F
    ||| n == 0x3000
}

/// Whether `c` is white space.
pub fn space(c: char) -> (b: bool)
    ensures
        b == is_space(c),
{
    let n: u32 = c as u32;
    (0x09 <= n && n <= 0x0D) || n == 0x20 || n == 0x85 || n == 0xA0 || n == 0x1680 || (0x2000 <= n
        && n <= 0x200A) || n == 0x2028 || n == 0x2029 || n == 0x202F || n == 0x205F || n == 0x3000
}

/// `s` without its leading white space.
pub open spec fn trim_start(s: Seq<char>) -> Seq<char>
    decreases s.len(),
{
    if s.len() > 0 && is_space(s[0]) {
        trim_start(s.drop_first())
    } else {
        s
    }
}

/// `s` without its trailing white space.
pub open spec fn trim_end(s: Seq<char>) -> Seq<char>
    decreases s.len(),
{
    if s.len() > 0 && is_space(s.last()) {
        trim_end(s.drop_last())
    } else {
        s
    }
}

/// `s` without leading and trailing white space.
pub open spec fn trim(s: Seq<char>) -> Seq<char> {
    trim_end(trim_start(s))
}

/// The bounds of what `trim` leaves of `s[lo..hi]`.
pub fn trim_bounds(s: &Vec<char>, lo: usize, hi: usize) -> (r: (usize, usize))
    requires
        lo <= hi <= s.len(),
    ensures
        lo <= r.0 <= r.1 <= hi,
        s@.subrange(r.0 as int, r.1 as int) == trim(s@.subrange(lo as int, hi as int)),
{
    let mut a: usize = lo;
    while a < hi && space(s[a])
        invariant
            lo <= a <= hi <= s.len(),
            trim_start(s@.subrange(a as int, hi as int)) == trim_start(
                s@.subrange(lo as int, hi as int),
            ),
        decreases hi - a,
    {
        assert(s@.subrange(a as int, hi as int).drop_first() =~= s@.subrange(a + 1, hi as int));
        a += 1;
    }
    let mut b: usize = hi;
    while a < b && space(s[b - 1])
        invariant
            a <= b <= hi <= s.len(),
            trim_end(s@.subrange(a as int, b as int)) == trim_end(s@.subrange(a as int, hi as int)),
        decreases b - a,
    {
        assert(s@.subrange(a as int, b as int).drop_last() =~= s@.subrange(a as int, b - 1));
        b -= 1;
    }
    (a, b)
}

/// `s` up to the first occurrence of `pat`; all of `s` where there is none.
pub open spec fn until(s: Seq<char>, pat: Seq<char>) -> Seq<char> {
    match first_index_of(s, pat) {
        Some(i) => s.take(i),
        None => s,
    }
}

/// The index, in characters, of the first occurrence of `pat` in `s`.
pub fn find_in(s: &str, pat: &str) -> (r: Option<usize>)
    ensures
        r is Some <==> first_index_of(s@, pat@) is Some,
        r is Some ==> first_index_of(s@, pat@) == Some(r->0 as int),
        r is Some ==> r->0 + pat@.len() <= s@.len(),
        s@.len() <= usize::MAX,
{
    let v = chars_of(s);
    let p = chars_of(pat);
    assert(v.len() <= usize::MAX);
    find(&v, &p)
}

/// Whether `s` begins with `pat`.
pub fn begins_with(s: &str, pat: &str) -> (b: bool)
    ensures
        b == starts_with(s@, pat@),
{
    let v = chars_of(s);
    let p = chars_of(pat);
    occurs_at(&v, &p, 0)
}

/// `s` from its character `from` on.
pub fn tail_from<'a>(s: &'a str, from: usize) -> (r: &'a str)
    requires
        from <= s@.len(),
    ensures
        r@ == s@.skip(from as int),
{
    let n = s.unicode_len();
    s.substring_char(from, n)
}

/// `s` up to the first occurrence of `pat`.
pub fn cut_until<'a>(s: &'a str, pat: &str) -> (r: &'a str)
    ensures
        r@ == until(s@, pat@),
{
    match find_in(s, pat) {
        Some(i) => s.substring_char(0, i),
        None => s,
    }
}

} // verus!
