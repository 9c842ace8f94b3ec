//! Character-level text operations: removing every occurrence of a pattern,
//! truncating to a number of characters, and moving between `String` and
//! vectors of characters.

use vstd::prelude::*;

verus! {

/// `s` with each occurrence of `pat` removed, the occurrences being found from
/// left to right without overlap, as `str::replace(pat, "")` finds them.
/// An empty pattern leaves `s` as it is.
pub open spec fn remove_all(s: Seq<char>, pat: Seq<char>) -> Seq<char>
    decreases s.len(),
{
    if pat.len() == 0 || s.len() < pat.len() {
        s
    } else if s.take(pat.len() as int) == pat {
        remove_all(s.skip(pat.len() as int), pat)
    } else {
        seq![s[0]] + remove_all(s.skip(1), pat)
    }
}

/// The first `n` characters of `s`, or all of `s` where it is shorter.
pub open spec fn truncate(s: Seq<char>, n: nat) -> Seq<char> {
    if s.len() <= n {
        s
    } else {
        s.take(n as int)
    }
}

/// `text`, or `default` where there is no text.
pub open spec fn or_default(text: Option<Seq<char>>, default: Seq<char>) -> Seq<char> {
    match text {
        Some(t) => t,
        None => default,
    }
}

/// The characters of `s`, in order.
pub fn chars_of(s: &str) -> (v: Vec<char>)
    ensures
        v@ == s@,
{
    let mut v: Vec<char> = Vec::new();
    for c in it: s.chars()
        invariant
            it.seq() == s@,
            v@ == it.seq().take(it.index()),
    {
        v.push(c);
    }
    v
}

/// The string made of the characters of `v`, in order.
#[verifier::external_body]
pub(crate) fn string_of(v: &Vec<char>) -> (s: String)
    ensures
        s@ == v@,
{
    v.iter().collect::<String>()
}

/// Whether `pat` occurs in `s` at position `i`.
fn occurs_at(s: &Vec<char>, i: usize, pat: &Vec<char>) -> (b: bool)
    requires
        i <= s.len(),
    ensures
        b == (i + pat.len() <= s.len() && s@.subrange(i as int, i + pat.len()) == pat@),
{
    if pat.len() > s.len() - i {
        return false;
    }
    let mut j: usize = 0;
    while j < pat.len()
        invariant
            i + pat.len() <= s.len(),
            j <= pat.len(),
            forall|k: int| 0 <= k < j ==> s@[i + k] == pat@[k],
        decreases pat.len() - j,
    {
        if s[i + j] != pat[j] {
            assert(s@.subrange(i as int, i + pat.len())[j as int] != pat@[j as int]);
            return false;
        }
        j = j + 1;
    }
    assert(s@.subrange(i as int, i + pat.len()) =~= pat@);
    true
}

/// `s` with each occurrence of `pat` removed (see `remove_all`).
pub fn remove_occurrences(s: &Vec<char>, pat: &Vec<char>) -> (r: Vec<char>)
    ensures
        r@ == remove_all(s@, pat@),
{
    let mut out: Vec<char> = Vec::new();
    let mut i: usize = 0;
    assert(s@.skip(0) =~= s@);
    while i < s.len()
        invariant
            i <= s.len(),
            out@ + remove_all(s@.skip(i as int), pat@) == remove_all(s@, pat@),
        decreases s.len() - i,
    {
        let ghost rest = s@.skip(i as int);
        if pat.len() > 0 && occurs_at(s, i, pat) {
            assert(rest.take(pat.len() as int) =~= pat@);
            assert(rest.skip(pat.len() as int) =~= s@.skip(i + pat.len()));
            i = i + pat.len();
        } else {
            proof {
                if pat.len() > 0 && rest.len() >= pat.len() {
                    assert(rest.take(pat.len() as int) =~= s@.subrange(i as int, i + pat.len()));
                }
                assert(rest.skip(1) =~= s@.skip(i + 1));
                if pat.len() == 0 || rest.len() < pat.len() {
                    assert(remove_all(rest, pat@) == rest);
                    assert(remove_all(rest.skip(1), pat@) == rest.skip(1)) by {
                        if pat.len() > 0 {
                            assert(rest.skip(1).len() < pat.len());
                        }
                    }
                    assert(rest =~= seq![rest[0]] + rest.skip(1));
                }
            }
            out.push(s[i]);
            i = i + 1;
        }
    }
    assert(s@.skip(i as int) =~= Seq::<char>::empty());
    out
}

/// The first `n` characters of `s` (see `truncate`).
pub fn truncate_chars(s: &Vec<char>, n: usize) -> (r: Vec<char>)
    ensures
        r@ == truncate(s@, n as nat),
{
    let mut out: Vec<char> = Vec::new();
    let mut i: usize = 0;
    while i < s.len() && i < n
        invariant
            i <= s.len(),
            i <= n,
            out@ == s@.take(i as int),
        decreases s.len() - i,
    {
        out.push(s[i]);
        i = i + 1;
        assert(out@ =~= s@.take(i as int));
    }
    assert(s.len() <= n ==> s@.take(i as int) =~= s@);
    out
}

} // verus!

verus! {

/// Removing a pattern never lengthens a text.
pub proof fn lemma_remove_all_shortens(s: Seq<char>, pat: Seq<char>)
    ensures
        remove_all(s, pat).len() <= s.len(),
    decreases s.len(),
{
    if pat.len() == 0 || s.len() < pat.len() {
    } else if s.take(pat.len() as int) == pat {
        lemma_remove_all_shortens(s.skip(pat.len() as int), pat);
    } else {
        lemma_remove_all_shortens(s.skip(1), pat);
    }
}

/// A text in which the first character of the pattern does not occur is left
/// as it is.
pub proof fn lemma_remove_all_keeps_text_without_pattern_start(s: Seq<char>, pat: Seq<char>)
    requires
        pat.len() > 0,
        forall|i: int| 0 <= i < s.len() ==> s[i] != pat[0],
    ensures
        remove_all(s, pat) == s,
    decreases s.len(),
{
    if s.len() < pat.len() {
    } else {
        assert(s.take(pat.len() as int)[0] != pat[0]);
        lemma_remove_all_keeps_text_without_pattern_start(s.skip(1), pat);
        assert(s =~= seq![s[0]] + s.skip(1));
    }
}

/// Truncating gives the first `min(n, len)` characters of the text: all of a
/// text that is not longer than `n`, and exactly `n` of a longer one.
pub proof fn lemma_truncate_bounds(s: Seq<char>, n: nat)
    ensures
        truncate(s, n).len() <= n,
        truncate(s, n).len() <= s.len(),
        truncate(s, n).len() == if s.len() <= n { s.len() } else { n },
        truncate(s, n) == s.take(truncate(s, n).len() as int),
        s.len() <= n ==> truncate(s, n) == s,
{
    assert(s.take(s.len() as int) =~= s);
}

/// A text that starts with characters none of which begins the pattern keeps
/// them: removal acts on the rest only.
pub proof fn lemma_remove_all_keeps_prefix(a: Seq<char>, r: Seq<char>, pat: Seq<char>)
    requires
        pat.len() > 0,
        forall|i: int| 0 <= i < a.len() ==> a[i] != pat[0],
    ensures
        remove_all(a + r, pat) == a + remove_all(r, pat),
    decreases a.len(),
{
    if a.len() == 0 {
        assert(a + r =~= r);
    } else {
        let s = a + r;
        if s.len() < pat.len() {
            assert(remove_all(r, pat) == r);
        } else {
            assert(s.take(pat.len() as int)[0] == a[0]);
            assert(s.take(pat.len() as int) != pat);
            assert(s.skip(1) =~= a.skip(1) + r);
            lemma_remove_all_keeps_prefix(a.skip(1), r, pat);
            assert(seq![a[0]] + (a.skip(1) + remove_all(r, pat)) =~= a + remove_all(r, pat));
        }
    }
}

/// Removing a pattern removes just its occurrence and keeps every other
/// character: where neither `a` nor `b` holds the first character of `pat`,
/// `a + pat + b` becomes `a + b`.
pub proof fn lemma_remove_all_removes_only_pattern(a: Seq<char>, b: Seq<char>, pat: Seq<char>)
    requires
        pat.len() > 0,
        forall|i: int| 0 <= i < a.len() ==> a[i] != pat[0],
        forall|i: int| 0 <= i < b.len() ==> b[i] != pat[0],
    ensures
        remove_all(a + pat + b, pat) == a + b,
{
    assert(a + pat + b =~= a + (pat + b));
    lemma_remove_all_keeps_prefix(a, pat + b, pat);
    assert((pat + b).take(pat.len() as int) =~= pat);
    assert((pat + b).skip(pat.len() as int) =~= b);
    lemma_remove_all_keeps_text_without_pattern_start(b, pat);
}

/// A text `a + m + b` in which the pattern cannot occur is left as it is:
/// `a` and `b` do not hold the pattern's first character, `m` holds it only
/// first, and `m` differs from the pattern at a position `k` that both have.
pub proof fn lemma_remove_all_keeps_other_text(
    a: Seq<char>,
    m: Seq<char>,
    b: Seq<char>,
    pat: Seq<char>,
    k: int,
)
    requires
        pat.len() > 0,
        m.len() > 0,
        m[0] == pat[0],
        forall|i: int| 0 <= i < a.len() ==> a[i] != pat[0],
        forall|i: int| 0 <= i < b.len() ==> b[i] != pat[0],
        forall|i: int| 1 <= i < m.len() ==> m[i] != pat[0],
        0 <= k < m.len(),
        k < pat.len(),
        m[k] != pat[k],
    ensures
        remove_all(a + m + b, pat) == a + m + b,
{
    assert(a + m + b =~= a + (m + b));
    lemma_remove_all_keeps_prefix(a, m + b, pat);
    let s = m + b;
    if s.len() >= pat.len() {
        assert(s.take(pat.len() as int)[k] != pat[k]);
        assert(s.take(pat.len() as int) != pat);
        assert(s.skip(1) =~= m.skip(1) + b);
        lemma_remove_all_keeps_text_without_pattern_start(m.skip(1) + b, pat);
        assert(seq![s[0]] + s.skip(1) =~= s);
    }
}

} // verus!
