//! Patterns that tokens are matched against.
//!
//! A pattern is a sequence of atoms, each a character that stands for itself
//! or `.`, which stands for any character; an atom followed by `*` matches
//! any number of repetitions of it. A pattern must match the whole token.
use vstd::prelude::*;

verus! {

/// Whether the atom `a` matches the character `c`.
pub open spec fn atom_matches(a: char, c: char) -> bool {
    a == '.' || a == c
}

/// Whether the pattern `p` matches the whole of `t`.
pub open spec fn pattern_matches(p: Seq<char>, t: Seq<char>) -> bool
    decreases p.len(), t.len(),
{
    if p.len() == 0 {
        t.len() == 0
    } else if p.len() >= 2 && p[1] == '*' {
        pattern_matches(p.subrange(2, p.len() as int), t) || (t.len() > 0 && atom_matches(p[0], t[0])
            && pattern_matches(p, t.subrange(1, t.len() as int)))
    } else {
        t.len() > 0 && atom_matches(p[0], t[0]) && pattern_matches(
            p.subrange(1, p.len() as int),
            t.subrange(1, t.len() as int),
        )
    }
}

/// The characters of `s`.
pub(crate) fn chars_of(s: &str) -> (r: Vec<char>)
    ensures
        r@ == s@,
{
    let n = s.unicode_len();
    let mut r: Vec<char> = Vec::new();
    let mut i: usize = 0;
    while i < n
        invariant
            n == s@.len(),
            i <= n,
            r@ == s@.subrange(0, i as int),
        decreases n - i,
    {
        let c = s.get_char(i);
        r.push(c);
        i = i + 1;
    }
    r
}

/// Whether `p` from `pi` on matches the whole of `t` from `ti` on.
fn matches_from(p: &Vec<char>, pi: usize, t: &Vec<char>, ti: usize) -> (r: bool)
    requires
        pi <= p.len(),
        ti <= t.len(),
    ensures
        r == pattern_matches(p@.subrange(pi as int, p.len() as int), t@.subrange(ti as int, t.len() as int)),
    decreases p.len() - pi, t.len() - ti,
{
    let ghost ps = p@.subrange(pi as int, p.len() as int);
    let ghost ts = t@.subrange(ti as int, t.len() as int);
    if pi == p.len() {
        ti == t.len()
    } else if pi + 1 < p.len() && p[pi + 1] == '*' {
        assert(ps.subrange(2, ps.len() as int) == p@.subrange(pi + 2, p.len() as int));
        if matches_from(p, pi + 2, t, ti) {
            true
        } else if ti < t.len() && (p[pi] == '.' || p[pi] == t[ti]) {
            assert(ts.subrange(1, ts.len() as int) == t@.subrange(ti + 1, t.len() as int));
            matches_from(p, pi, t, ti + 1)
        } else {
            false
        }
    } else if ti < t.len() && (p[pi] == '.' || p[pi] == t[ti]) {
        assert(ps.subrange(1, ps.len() as int) == p@.subrange(pi + 1, p.len() as int));
        assert(ts.subrange(1, ts.len() as int) == t@.subrange(ti + 1, t.len() as int));
        matches_from(p, pi + 1, t, ti + 1)
    } else {
        false
    }
}

/// Whether the pattern `p` matches the whole of `t`.
pub fn matches_pattern(p: &str, t: &str) -> (r: bool)
    ensures
        r == pattern_matches(p@, t@),
{
    let pv = chars_of(p);
    let tv = chars_of(t);
    assert(pv@.subrange(0, pv.len() as int) == pv@);
    assert(tv@.subrange(0, tv.len() as int) == tv@);
    matches_from(&pv, 0, &tv, 0)
}

} // verus!
