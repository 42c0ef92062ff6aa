use vstd::prelude::*;

verus! {

/// `pat` occurs in `s` starting at index `i`.
pub open spec fn occurs_at(s: Seq<char>, pat: Seq<char>, i: int) -> bool {
    0 <= i && i + pat.len() <= s.len() && s.subrange(i, i + pat.len()) == pat
}

/// `pat` occurs somewhere in `s` (what `str::contains` answers for a string pattern).
pub open spec fn has_text(s: Seq<char>, pat: Seq<char>) -> bool {
    exists|i: int| occurs_at(s, pat, i)
}

/// `s` starts with `pat`.
pub open spec fn begins_with(s: Seq<char>, pat: Seq<char>) -> bool {
    occurs_at(s, pat, 0)
}

/// How many times the character `c` occurs in `s`.
pub open spec fn count_char(s: Seq<char>, c: char) -> nat
    decreases s.len(),
{
    if s.len() == 0 {
        0
    } else {
        count_char(s.drop_last(), c) + if s.last() == c { 1nat } else { 0nat }
    }
}

/// Counting a character in two pieces of text adds up.
pub proof fn lemma_count_char_concat(a: Seq<char>, b: Seq<char>, c: char)
    ensures
        count_char(a + b, c) == count_char(a, c) + count_char(b, c),
    decreases b.len(),
{
    if b.len() == 0 {
        assert(a + b =~= a);
    } else {
        assert((a + b).drop_last() =~= a + b.drop_last());
        lemma_count_char_concat(a, b.drop_last(), c);
    }
}

/// A text holds every piece it is made of, starts with its first piece, and a
/// pattern longer than the text never occurs in it; a one-character text
/// counts its character once and any other character not at all.
pub proof fn lemma_text_laws(a: Seq<char>, pat: Seq<char>, b: Seq<char>, c: char, d: char)
    ensures
        has_text(a + pat + b, pat),
        begins_with(pat + b, pat),
        pat.len() > a.len() ==> !has_text(a, pat),
        has_text(a, seq![c]) <==> a.contains(c),
        count_char(seq![c], c) == 1,
        c != d ==> count_char(seq![d], c) == 0,
        count_char(a, c) <= a.len(),
        count_char(a, c) > 0 <==> a.contains(c),
    decreases a.len(),
{
    let s = a + pat + b;
    assert(s.subrange(a.len() as int, (a.len() + pat.len()) as int) =~= pat);
    assert(occurs_at(s, pat, a.len() as int));
    assert((pat + b).subrange(0, pat.len() as int) =~= pat);
    if has_text(a, seq![c]) {
        let i = choose|i: int| occurs_at(a, seq![c], i);
        assert(a.subrange(i, i + 1)[0] == a[i]);
    }
    if a.contains(c) {
        let i = choose|i: int| 0 <= i < a.len() && a[i] == c;
        assert(a.subrange(i, i + 1) =~= seq![c]);
        assert(occurs_at(a, seq![c], i));
    }
    assert(seq![c].drop_last() =~= Seq::<char>::empty());
    assert(seq![d].drop_last() =~= Seq::<char>::empty());
    assert(count_char(Seq::<char>::empty(), c) == 0);
    assert(seq![c].last() == c);
    assert(seq![d].last() == d);
    assert(count_char(seq![c], c) == count_char(seq![c].drop_last(), c) + 1);
    if a.len() > 0 {
        lemma_text_laws(a.drop_last(), pat, b, c, d);
        if a.contains(c) && !a.drop_last().contains(c) {
            let i = choose|i: int| 0 <= i < a.len() && a[i] == c;
            if i < a.len() - 1 {
                assert(a.drop_last()[i] == c);
            }
        }
        if a.drop_last().contains(c) {
            let i = choose|i: int| 0 <= i < a.drop_last().len() && a.drop_last()[i] == c;
            assert(a[i] == c);
        }
        if a.last() == c {
            assert(a[a.len() - 1] == c);
        }
    }
}

/// The characters of a string slice, in order.
pub(crate) fn chars_of(s: &str) -> (v: Vec<char>)
    ensures
        v@ == s@,
{
    let mut v: Vec<char> = Vec::new();
    for c in it: s.chars()
        invariant
            v@ == it.seq().take(it.index() as int),
    {
        v.push(c);
    }
    v
}


/// How many times `c` occurs in `s`.
pub(crate) fn count_in(s: &Vec<char>, c: char) -> (n: usize)
    ensures
        n == count_char(s@, c),
{
    let mut n: usize = 0;
    let mut i: usize = 0;
    while i < s.len()
        invariant
            i <= s.len(),
            n <= i,
            n == count_char(s@.take(i as int), c),
        decreases s.len() - i,
    {
        assert(s@.take(i + 1).drop_last() =~= s@.take(i as int));
        if s[i] == c {
            n = n + 1;
        }
        i = i + 1;
    }
    assert(s@.take(i as int) =~= s@);
    n
}

/// Whether `c` occurs in `s`.
pub(crate) fn has_char_in(s: &Vec<char>, c: char) -> (found: bool)
    ensures
        found == s@.contains(c),
{
    let mut i: usize = 0;
    while i < s.len()
        invariant
            i <= s.len(),
            forall|k: int| 0 <= k < i ==> s@[k] != c,
        decreases s.len() - i,
    {
        if s[i] == c {
            return true;
        }
        i = i + 1;
    }
    false
}

/// Whether `pat` occurs in `s` at index `i`.
pub(crate) fn matches_at(s: &Vec<char>, pat: &Vec<char>, i: usize) -> (found: bool)
    requires
        i + pat.len() <= s.len(),
    ensures
        found == occurs_at(s@, pat@, i as int),
{
    let mut j: usize = 0;
    while j < pat.len()
        invariant
            i + pat.len() <= s.len(),
            j <= pat.len(),
            forall|k: int| 0 <= k < j ==> s@[i + k] == pat@[k],
        decreases pat.len() - j,
    {
        if s[i + j] != pat[j] {
            assert(s@.subrange(i as int, i + pat.len())[j as int] != pat@[j as int]);
            return false;
        }
        j = j + 1;
    }
    assert(s@.subrange(i as int, i + pat.len()) =~= pat@);
    true
}

/// Whether `pat` occurs anywhere in `s`.
pub(crate) fn contains_text(s: &Vec<char>, pat: &str) -> (found: bool)
    ensures
        found == has_text(s@, pat@),
{
    let p = chars_of(pat);
    if p.len() > s.len() {
        return false;
    }
    let last: usize = s.len() - p.len();
    let mut i: usize = 0;
    loop
        invariant
            p@ == pat@,
            last + p.len() == s.len(),
            i <= last,
            forall|k: int| 0 <= k < i ==> !occurs_at(s@, pat@, k),
        decreases last - i,
    {
        if matches_at(s, &p, i) {
            return true;
        }
        if i == last {
            return false;
        }
        i = i + 1;
    }
}

/// Whether `s` begins with `pat`.
pub(crate) fn starts_with_text(s: &Vec<char>, pat: &str) -> (found: bool)
    ensures
        found == begins_with(s@, pat@),
{
    let p = chars_of(pat);
    if p.len() > s.len() {
        return false;
    }
    matches_at(s, &p, 0)
}

} // verus!
