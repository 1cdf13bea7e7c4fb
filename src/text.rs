//! Character-level string utilities: equality, search for a marker, and the
//! remainder of a string after the first occurrence of a marker.

use vstd::prelude::*;
use vstd::string::StrSliceExecFns;

verus! {

/// `pat` occurs in `s` starting at position `i`.
pub open spec fn occurs_at(s: Seq<char>, pat: Seq<char>, i: int) -> bool {
    &&& 0 <= i
    &&& i + pat.len() <= s.len()
    &&& s.subrange(i, i + pat.len()) == pat
}

/// `pat` occurs somewhere in `s`.
pub open spec fn contains(s: Seq<char>, pat: Seq<char>) -> bool {
    exists|i: int| occurs_at(s, pat, i)
}

/// `i` is the position of the leftmost occurrence of `pat` in `s`.
pub open spec fn is_first_occurrence(s: Seq<char>, pat: Seq<char>, i: int) -> bool {
    &&& occurs_at(s, pat, i)
    &&& forall|j: int| 0 <= j < i ==> !occurs_at(s, pat, j)
}

/// Everything that follows the first occurrence of `marker` in `s`, or `None`
/// when `marker` does not occur in `s`.
pub open spec fn after_marker(s: Seq<char>, marker: Seq<char>) -> Option<Seq<char>> {
    if contains(s, marker) {
        let i = choose|i: int| is_first_occurrence(s, marker, i);
        Some(s.subrange(i + marker.len(), s.len() as int))
    } else {
        None
    }
}

/// There is only one leftmost occurrence.
pub proof fn lemma_first_occurrence_unique(s: Seq<char>, pat: Seq<char>, i: int, k: int)
    requires
        is_first_occurrence(s, pat, i),
        is_first_occurrence(s, pat, k),
    ensures
        i == k,
{
    if k < i {
        assert(!occurs_at(s, pat, k));
    } else if i < k {
        assert(!occurs_at(s, pat, i));
    }
}

/// Once the leftmost occurrence is known, `after_marker` is the rest of `s` after it.
pub proof fn lemma_after_first_occurrence(s: Seq<char>, marker: Seq<char>, i: int)
    requires
        is_first_occurrence(s, marker, i),
    ensures
        after_marker(s, marker) == Some(s.subrange(i + marker.len(), s.len() as int)),
{
    assert(contains(s, marker));
    let k = choose|k: int| is_first_occurrence(s, marker, k);
    lemma_first_occurrence_unique(s, marker, i, k);
}

/// When `s` is `prefix`, then `marker`, then `rest`, and no occurrence of
/// `marker` starts inside `prefix`, what follows the first `marker` is `rest`.
pub proof fn lemma_after_marker_of_concat(
    s: Seq<char>,
    prefix: Seq<char>,
    marker: Seq<char>,
    rest: Seq<char>,
)
    requires
        s == prefix + marker + rest,
        forall|j: int| 0 <= j < prefix.len() ==> !occurs_at(s, marker, j),
    ensures
        after_marker(s, marker) == Some(rest),
{
    let i = prefix.len() as int;
    assert(s.subrange(i, i + marker.len()) =~= marker);
    assert(is_first_occurrence(s, marker, i));
    lemma_after_first_occurrence(s, marker, i);
    assert(s.subrange(i + marker.len(), s.len() as int) =~= rest);
}

/// The characters of `s`, one per element.
pub fn chars_of(s: &str) -> (r: Vec<char>)
    ensures
        r@ == s@,
{
    let mut r: Vec<char> = Vec::new();
    for c in it: s.chars()
        invariant
            it.seq() == s@,
            r@ == it.seq().take(it.index() as int),
    {
        r.push(c);
    }
    r
}

/// Position of the leftmost occurrence of `pat` in `s`, if there is one.
pub fn find_first(s: &Vec<char>, pat: &Vec<char>) -> (r: Option<usize>)
    ensures
        match r {
            Some(i) => is_first_occurrence(s@, pat@, i as int),
            None => !contains(s@, pat@),
        },
{
    if pat.len() > s.len() {
        return None;
    }
    let last = s.len() - pat.len();
    let mut i: usize = 0;
    while i <= last
        invariant
            last == s.len() - pat.len(),
            i <= last + 1,
            forall|j: int| 0 <= j < i ==> !occurs_at(s@, pat@, j),
        decreases last + 1 - i,
    {
        let mut k: usize = 0;
        let mut matched = true;
        while k < pat.len()
            invariant
                i <= last,
                last == s.len() - pat.len(),
                k <= pat.len(),
                matched <==> forall|m: int| 0 <= m < k ==> s@[i + m] == pat@[m],
            decreases pat.len() - k,
        {
            if s[i + k] != pat[k] {
                matched = false;
            }
            k = k + 1;
        }
        if matched {
            assert(s@.subrange(i as int, i + pat.len()) =~= pat@);
            return Some(i);
        }
        assert(!occurs_at(s@, pat@, i as int)) by {
            let m = choose|m: int| 0 <= m < pat.len() && s@[i + m] != pat@[m];
            assert(s@.subrange(i as int, i + pat.len())[m] != pat@[m]);
        }
        i = i + 1;
    }
    None
}

/// Whether two strings hold the same characters.
pub fn same_text(a: &str, b: &str) -> (r: bool)
    ensures
        r == (a@ == b@),
{
    let x = chars_of(a);
    let y = chars_of(b);
    if x.len() != y.len() {
        return false;
    }
    let mut k: usize = 0;
    while k < x.len()
        invariant
            x@ == a@,
            y@ == b@,
            x.len() == y.len(),
            k <= x.len(),
            forall|m: int| 0 <= m < k ==> x@[m] == y@[m],
        decreases x.len() - k,
    {
        if x[k] != y[k] {
            return false;
        }
        k = k + 1;
    }
    assert(x@ =~= y@);
    true
}

/// Everything in `s` after the first occurrence of `marker`, or `None` when
/// `marker` does not occur in `s`.
pub fn text_after(s: &str, marker: &str) -> (r: Option<String>)
    ensures
        r is Some <==> after_marker(s@, marker@) is Some,
        r is Some ==> after_marker(s@, marker@) == Some(r->0@),
{
    let chars = chars_of(s);
    let pat = chars_of(marker);
    match find_first(&chars, &pat) {
        Some(i) => {
            proof {
                lemma_after_first_occurrence(s@, marker@, i as int);
            }
            let n = chars.len();
            let m = pat.len();
            let rest = s.substring_char(i + m, n);
            Some(rest.to_owned())
        },
        None => None,
    }
}

} // verus!
